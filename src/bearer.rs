use vstd::prelude::*;
use vstd::string::StrSliceExecFns;

verus! {

/// Whether `p` reads `bearer ` in any mix of letter cases.
pub open spec fn is_bearer_scheme(p: Seq<char>) -> bool {
    &&& p.len() == 7
    &&& p[0] == 'b' || p[0] == 'B'
    &&& p[1] == 'e' || p[1] == 'E'
    &&& p[2] == 'a' || p[2] == 'A'
    &&& p[3] == 'r' || p[3] == 'R'
    &&& p[4] == 'e' || p[4] == 'E'
    &&& p[5] == 'r' || p[5] == 'R'
    &&& p[6] == ' '
}

/// The token that a credential header carries: what follows a
/// case-insensitive `bearer ` prefix, in a header of at least eight
/// characters.
pub open spec fn bearer_of(header: Option<Seq<char>>) -> Option<Seq<char>> {
    match header {
        Some(h) => if h.len() >= 8 && is_bearer_scheme(h.subrange(0, 7)) {
            Some(h.subrange(7, h.len() as int))
        } else {
            None
        },
        None => None,
    }
}

/// The characters of an optional text.
pub open spec fn str_view(text: Option<&str>) -> Option<Seq<char>> {
    match text {
        Some(h) => Some(h@),
        None => None,
    }
}

/// Takes the raw token out of a credential header (absent, or not valid
/// text, is `None`). Nothing of the token itself is checked here.
pub fn bearer_token(header: Option<&str>) -> (r: Option<String>)
    ensures
        match r {
            Some(t) => bearer_of(str_view(header)) == Some(t@),
            None => bearer_of(str_view(header)) is None,
        },
{
    match header {
        None => None,
        Some(h) => {
            let n = h.unicode_len();
            if n < 8 {
                return None;
            }
            let c0 = h.get_char(0);
            let c1 = h.get_char(1);
            let c2 = h.get_char(2);
            let c3 = h.get_char(3);
            let c4 = h.get_char(4);
            let c5 = h.get_char(5);
            let c6 = h.get_char(6);
            let scheme = (c0 == 'b' || c0 == 'B') && (c1 == 'e' || c1 == 'E') && (c2 == 'a' || c2
                == 'A') && (c3 == 'r' || c3 == 'R') && (c4 == 'e' || c4 == 'E') && (c5 == 'r' || c5
                == 'R') && c6 == ' ';
            assert(scheme == is_bearer_scheme(h@.subrange(0, 7)));
            if !scheme {
                return None;
            }
            let rest = h.substring_char(7, n);
            Some(rest.to_owned())
        },
    }
}

} // verus!
