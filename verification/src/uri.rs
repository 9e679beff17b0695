//! Canonical resource identifiers.
//!
//! A [`Uri`] wraps the canonical string form of a resource name. Construction
//! always re-derives the canonical form, so canonicalizing a canonical
//! identifier yields an equal identifier.

use vstd::prelude::*;

verus! {

/// The scheme prefix that every canonical identifier string carries.
pub open spec fn wrap_scheme() -> Seq<char> {
    "wrap://"@
}

/// True when `s` already starts with the canonical scheme prefix.
pub open spec fn has_wrap_scheme(s: Seq<char>) -> bool {
    s.len() >= wrap_scheme().len() && s.subrange(0, wrap_scheme().len() as int) == wrap_scheme()
}

/// The canonical form of a raw identifier string: the string itself when it
/// already carries the scheme prefix, otherwise the string with the prefix
/// put in front. The rule is a pure function of the input, so equal inputs
/// always canonicalize to equal strings.
pub open spec fn canonical_of(s: Seq<char>) -> Seq<char> {
    if has_wrap_scheme(s) {
        s
    } else {
        wrap_scheme() + s
    }
}

/// Canonicalization is idempotent: the canonical form of a canonical form is
/// that canonical form itself.
pub proof fn lemma_canonical_of_idempotent(s: Seq<char>)
    ensures
        canonical_of(canonical_of(s)) == canonical_of(s),
{
    reveal_strlit("wrap://");
    if !has_wrap_scheme(s) {
        assert((wrap_scheme() + s).subrange(0, wrap_scheme().len() as int) =~= wrap_scheme());
    }
}

/// An immutable identifier holding the canonical string form of a resource
/// name. Equality is structural on the canonical string.
#[derive(Debug)]
pub struct Uri {
    uri: String,
}

impl View for Uri {
    type V = Seq<char>;

    closed spec fn view(&self) -> Seq<char> {
        self.uri@
    }
}

impl Clone for Uri {
    fn clone(&self) -> (res: Self)
        ensures
            res == *self,
    {
        Uri { uri: self.uri.clone() }
    }
}

impl PartialEq for Uri {
    fn eq(&self, other: &Uri) -> (r: bool) {
        self.uri == other.uri
    }
}

impl vstd::std_specs::cmp::PartialEqSpecImpl for Uri {
    open spec fn obeys_eq_spec() -> bool {
        true
    }

    open spec fn eq_spec(&self, other: &Uri) -> bool {
        self@ == other@
    }
}

impl Uri {
    /// Builds the identifier whose string is the canonical form of `uri`.
    /// The operation cannot fail and has no side effects.
    pub fn new(uri: &str) -> (r: Uri)
        ensures
            r@ == canonical_of(uri@),
    {
        if has_scheme_prefix(uri) {
            Uri { uri: String::from_str(uri) }
        } else {
            let mut canonical = String::from_str("wrap://");
            canonical.append(uri);
            Uri { uri: canonical }
        }
    }

    /// The canonical string of this identifier, as a fresh `String`.
    pub fn get_uri(&self) -> (r: String)
        ensures
            r@ == self@,
    {
        self.uri.clone()
    }
}

/// True exactly when `s` starts with the canonical scheme prefix.
fn has_scheme_prefix(s: &str) -> (r: bool)
    ensures
        r == has_wrap_scheme(s@),
{
    proof {
        reveal_strlit("wrap://");
    }
    let n = s.unicode_len();
    if n < 7 {
        return false;
    }
    let matches = s.get_char(0) == 'w' && s.get_char(1) == 'r' && s.get_char(2) == 'a'
        && s.get_char(3) == 'p' && s.get_char(4) == ':' && s.get_char(5) == '/' && s.get_char(6)
        == '/';
    proof {
        let sub = s@.subrange(0, 7);
        assert(forall|i: int| 0 <= i < 7 ==> #[trigger] sub[i] == s@[i]);
        if matches {
            assert(sub =~= wrap_scheme());
        } else if sub == wrap_scheme() {
            assert(s@[0] == wrap_scheme()[0]);
            assert(s@[1] == wrap_scheme()[1]);
            assert(s@[2] == wrap_scheme()[2]);
            assert(s@[3] == wrap_scheme()[3]);
            assert(s@[4] == wrap_scheme()[4]);
            assert(s@[5] == wrap_scheme()[5]);
            assert(s@[6] == wrap_scheme()[6]);
            assert(false);
        }
    }
    matches
}

} // verus!
