//! Utility for path manipulation.

use vstd::prelude::*;

verus! {

/// The shorthand that stands for the home directory in a path string.
pub open spec fn placeholder() -> char {
    '~'
}

/// What home expansion produces: every occurrence of the placeholder is
/// replaced by `home`; every other character stays where it was.
pub open spec fn expand_spec(s: Seq<char>, home: Seq<char>) -> Seq<char>
    decreases s.len(),
{
    if s.len() == 0 {
        Seq::empty()
    } else {
        (if s[0] == placeholder() {
            home
        } else {
            seq![s[0]]
        }) + expand_spec(s.drop_first(), home)
    }
}

/// Expanding a sequence extended by one character appends what that
/// character expands to.
proof fn lemma_expand_push(s: Seq<char>, c: char, home: Seq<char>)
    ensures
        expand_spec(s.push(c), home) == expand_spec(s, home) + (if c == placeholder() {
            home
        } else {
            seq![c]
        }),
    decreases s.len(),
{
    if s.len() == 0 {
        assert(s.push(c)[0] == c);
        assert(s.push(c).drop_first() =~= Seq::<char>::empty());
        assert(expand_spec(Seq::<char>::empty(), home) == Seq::<char>::empty());
        assert(expand_spec(s, home) == Seq::<char>::empty());
        assert(expand_spec(s.push(c), home) =~= expand_spec(s, home) + (if c == placeholder() {
            home
        } else {
            seq![c]
        }));
    } else {
        lemma_expand_push(s.drop_first(), c, home);
        assert(s.push(c).drop_first() =~= s.drop_first().push(c));
        assert(expand_spec(s.push(c), home) =~= expand_spec(s, home) + (if c == placeholder() {
            home
        } else {
            seq![c]
        }));
    }
}

/// Law: when a home value is set, the expansion of any path that holds the
/// placeholder contains that home value as a contiguous run of characters.
pub proof fn lemma_expand_contains_home(s: Seq<char>, home: Seq<char>)
    requires
        exists|k: int| 0 <= k < s.len() && s[k] == placeholder(),
    ensures
        exists|j: int|
            0 <= j && j + home.len() <= expand_spec(s, home).len() && #[trigger] expand_spec(
                s,
                home,
            ).subrange(j, j + home.len()) == home,
    decreases s.len(),
{
    let out = expand_spec(s, home);
    if s[0] == placeholder() {
        let j: int = 0;
        assert(out.subrange(j, j + home.len()) =~= home);
        assert(0 <= j && j + home.len() <= out.len() && out.subrange(j, j + home.len()) == home);
    } else {
        let k = choose|k: int| 0 <= k < s.len() && s[k] == placeholder();
        assert(s.drop_first()[k - 1] == placeholder());
        lemma_expand_contains_home(s.drop_first(), home);
        let tail = expand_spec(s.drop_first(), home);
        let j0 = choose|j: int|
            0 <= j && j + home.len() <= tail.len() && #[trigger] tail.subrange(j, j + home.len())
                == home;
        let j = j0 + 1;
        assert(out.subrange(j, j + home.len()) =~= tail.subrange(j0, j0 + home.len()));
        assert(0 <= j && j + home.len() <= out.len() && out.subrange(j, j + home.len()) == home);
    }
}

/// Law: a path without the placeholder is left unchanged by expansion,
/// whatever the home value is.
pub proof fn lemma_expand_without_placeholder(s: Seq<char>, home: Seq<char>)
    requires
        forall|k: int| 0 <= k < s.len() ==> s[k] != placeholder(),
    ensures
        expand_spec(s, home) == s,
    decreases s.len(),
{
    if s.len() == 0 {
        assert(expand_spec(s, home) =~= s);
    } else {
        lemma_expand_without_placeholder(s.drop_first(), home);
        assert(expand_spec(s, home) =~= s);
    }
}

/// Replace every occurrence of the home placeholder in `path` with `home`;
/// with no home value available the input is kept unchanged.
pub fn expand_home(path: &str, home: Option<&str>) -> (r: String)
    ensures
        match home {
            Some(h) => r@ == expand_spec(path@, h@),
            None => r@ == path@,
        },
{
    match home {
        None => path.to_owned(),
        Some(h) => {
            let n = path.unicode_len();
            let mut out = String::new();
            let mut i: usize = 0;
            while i < n
                invariant
                    i <= n,
                    n == path@.len(),
                    out@ == expand_spec(path@.subrange(0, i as int), h@),
                decreases n - i,
            {
                proof {
                    assert(path@.subrange(0, i + 1) =~= path@.subrange(0, i as int).push(
                        path@[i as int],
                    ));
                    lemma_expand_push(path@.subrange(0, i as int), path@[i as int], h@);
                }
                let c = path.get_char(i);
                if c == '~' {
                    out.append(h);
                } else {
                    let piece = path.substring_char(i, i + 1);
                    proof {
                        assert(piece@ =~= seq![path@[i as int]]);
                    }
                    out.append(piece);
                }
                i = i + 1;
            }
            proof {
                assert(path@.subrange(0, n as int) =~= path@);
            }
            out
        },
    }
}

/// A filesystem path, held as the characters of its display form.
pub struct PathValue {
    text: String,
}

impl View for PathValue {
    type V = Seq<char>;

    closed spec fn view(&self) -> Seq<char> {
        self.text@
    }
}

impl PathValue {
    /// Make a path value from its display text.
    pub fn new(text: String) -> (p: PathValue)
        ensures
            p@ == text@,
    {
        PathValue { text }
    }

    /// The display text of the path.
    pub fn display(&self) -> (r: &str)
        ensures
            r@ == self@,
    {
        self.text.as_str()
    }
}

} // verus!
