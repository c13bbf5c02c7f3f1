//! Redirect-URL parsing for the OAuth callback: the port used for stale
//! listener reclamation and the origin used for login-URL construction are
//! independent functions over the same configured value.

use vstd::prelude::*;

use crate::text::{
    find_first, find_last, first_index_of, has_prefix, last_index_of, parse_u16, spec_parse_u16,
    spec_trim, str_has_prefix, trim_str,
};

verus! {

/// The port to reclaim before a start, derived from the configured redirect
/// value: `Some(8888)` when the value is missing, blank or not an
/// `http://` URL; the numeric port when the host segment carries an explicit
/// `:port` (falling back to 8888 when its text does not parse); and `None`
/// when the host segment has no explicit port, in which case reclamation is
/// skipped.
pub open spec fn spec_oauth_port(redirect: Option<Seq<char>>) -> Option<u16> {
    match redirect {
        Option::None => Some(8888u16),
        Option::Some(raw) => {
            let t = spec_trim(raw);
            if t.len() == 0 {
                Some(8888u16)
            } else if !has_prefix(t, "http://"@) {
                Some(8888u16)
            } else {
                let rest = t.skip(7);
                let hp = rest.take(first_index_of(rest, '/'));
                let li = last_index_of(hp, ':');
                if li < 0 {
                    None
                } else {
                    match spec_parse_u16(hp.skip(li + 1)) {
                        Some(p) => Some(p),
                        None => Some(8888u16),
                    }
                }
            }
        },
    }
}

/// The origin used to build the login URL: `http://` followed by the host
/// segment of the redirect value, or `http://127.0.0.1:8888` when the value
/// is missing, blank, not an `http://` URL, or has an empty host segment.
pub open spec fn spec_oauth_origin(redirect: Option<Seq<char>>) -> Seq<char> {
    match redirect {
        Option::None => "http://127.0.0.1:8888"@,
        Option::Some(raw) => {
            let t = spec_trim(raw);
            if t.len() == 0 {
                "http://127.0.0.1:8888"@
            } else if !has_prefix(t, "http://"@) {
                "http://127.0.0.1:8888"@
            } else {
                let hp = t.skip(7).take(first_index_of(t.skip(7), '/'));
                if hp.len() == 0 {
                    "http://127.0.0.1:8888"@
                } else {
                    "http://"@ + hp
                }
            }
        },
    }
}

/// The explicit OAuth callback port of the redirect value, `Some(8888)` for a
/// missing or non-`http://` value, or `None` when no explicit port is given.
pub fn oauth_port_from_redirect_uri(redirect_uri: Option<&str>) -> (r: Option<u16>)
    ensures
        r == spec_oauth_port(redirect_uri.deep_view()),
{
    match redirect_uri {
        None => Some(8888),
        Some(uri) => {
            let t = trim_str(uri);
            if t.unicode_len() == 0 {
                return Some(8888);
            }
            if !str_has_prefix(t, "http://") {
                return Some(8888);
            }
            proof {
                reveal_strlit("http://");
            }
            let n = t.unicode_len();
            let rest = t.substring_char(7, n);
            proof {
                assert(rest@ =~= t@.skip(7));
            }
            let hp_end = find_first(rest, '/');
            proof {
                crate::text::lemma_first_index_of(rest@, '/');
            }
            let hp = rest.substring_char(0, hp_end);
            proof {
                assert(hp@ =~= rest@.take(first_index_of(rest@, '/')));
            }
            match find_last(hp, ':') {
                None => None,
                Some(li) => {
                    let m = hp.unicode_len();
                    proof {
                        crate::text::lemma_last_index_of(hp@, ':');
                    }
                    let port_text = hp.substring_char(li + 1, m);
                    proof {
                        assert(port_text@ =~= hp@.skip(li + 1));
                    }
                    match parse_u16(port_text) {
                        Some(p) => Some(p),
                        None => Some(8888),
                    }
                },
            }
        },
    }
}

/// The origin for login-URL construction derived from the redirect value.
pub fn oauth_origin_from_redirect_uri(redirect_uri: Option<&str>) -> (r: String)
    ensures
        r@ == spec_oauth_origin(redirect_uri.deep_view()),
{
    match redirect_uri {
        None => String::from_str("http://127.0.0.1:8888"),
        Some(uri) => {
            let t = trim_str(uri);
            if t.unicode_len() == 0 {
                return String::from_str("http://127.0.0.1:8888");
            }
            if !str_has_prefix(t, "http://") {
                return String::from_str("http://127.0.0.1:8888");
            }
            proof {
                reveal_strlit("http://");
            }
            let n = t.unicode_len();
            let rest = t.substring_char(7, n);
            proof {
                assert(rest@ =~= t@.skip(7));
            }
            let hp_end = find_first(rest, '/');
            proof {
                crate::text::lemma_first_index_of(rest@, '/');
            }
            let hp = rest.substring_char(0, hp_end);
            proof {
                assert(hp@ =~= rest@.take(first_index_of(rest@, '/')));
            }
            if hp.unicode_len() == 0 {
                return String::from_str("http://127.0.0.1:8888");
            }
            String::from_str("http://").concat(hp)
        },
    }
}

/// The login URL handed to the URL-open collaborator: the derived origin
/// followed by `/login`.
pub fn login_url(redirect_uri: Option<&str>) -> (r: String)
    ensures
        r@ == spec_oauth_origin(redirect_uri.deep_view()) + "/login"@,
{
    oauth_origin_from_redirect_uri(redirect_uri).concat("/login")
}

} // verus!
