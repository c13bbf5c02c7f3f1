//! Best-effort reclamation of the OAuth callback port before a fresh start:
//! parsing the process identifiers reported by the OS port inspection, and
//! the fixed grace period between the graceful and the forceful signal.

use vstd::prelude::*;

use crate::text::{find_first, first_index_of, lemma_first_index_of, spec_trim, trim_str};

verus! {

/// Milliseconds to wait between the graceful termination signal and the
/// forceful kill of listeners still holding the port.
pub const RECLAIM_GRACE_MS: u64 = 300;

/// The identifiers in the port inspection's output: one per line, trimmed,
/// blank lines dropped.
pub open spec fn spec_pid_lines(s: Seq<char>) -> Seq<Seq<char>>
    decreases s.len(),
    via spec_pid_lines_decreases
{
    if s.len() == 0 {
        Seq::empty()
    } else {
        let k = first_index_of(s, '\n');
        let head = spec_trim(s.take(k));
        let tail = if k == s.len() {
            Seq::<Seq<char>>::empty()
        } else {
            spec_pid_lines(s.skip(k + 1))
        };
        if head.len() == 0 {
            tail
        } else {
            seq![head] + tail
        }
    }
}

#[via_fn]
proof fn spec_pid_lines_decreases(s: Seq<char>) {
    lemma_first_index_of(s, '\n');
}

/// Parse the output of the OS port inspection into the identifiers of the
/// processes currently listening: one per line, trimmed, blank lines
/// dropped, order kept.
pub fn parse_listener_pids(output: &str) -> (pids: Vec<String>)
    ensures
        pids@.map_values(|p: String| p@) == spec_pid_lines(output@),
{
    let mut pids: Vec<String> = Vec::new();
    let mut rest: &str = output;
    proof {
        assert(pids@.map_values(|p: String| p@) =~= Seq::<Seq<char>>::empty());
    }
    loop
        invariant_except_break
            pids@.map_values(|p: String| p@) + spec_pid_lines(rest@) == spec_pid_lines(output@),
        ensures
            pids@.map_values(|p: String| p@) == spec_pid_lines(output@),
        decreases rest@.len(),
    {
        let n = rest.unicode_len();
        if n == 0 {
            proof {
                assert(pids@.map_values(|p: String| p@) + spec_pid_lines(rest@) =~= pids@.map_values(
                    |p: String| p@,
                ));
            }
            break;
        }
        let k = find_first(rest, '\n');
        proof {
            lemma_first_index_of(rest@, '\n');
        }
        let line = rest.substring_char(0, k);
        proof {
            assert(line@ =~= rest@.take(k as int));
        }
        let trimmed = trim_str(line);
        let ghost old_pids = pids@;
        let ghost old_rest = rest@;
        if trimmed.unicode_len() > 0 {
            pids.push(String::from_str(trimmed));
            proof {
                assert(pids@.map_values(|p: String| p@) =~= old_pids.map_values(|p: String| p@)
                    + seq![spec_trim(old_rest.take(k as int))]);
            }
        }
        if k == n {
            proof {
                assert(spec_pid_lines(old_rest) == if spec_trim(old_rest.take(k as int)).len()
                    == 0 {
                    Seq::<Seq<char>>::empty()
                } else {
                    seq![spec_trim(old_rest.take(k as int))] + Seq::<Seq<char>>::empty()
                });
                assert(pids@.map_values(|p: String| p@) =~= old_pids.map_values(|p: String| p@)
                    + spec_pid_lines(old_rest));
            }
            break;
        }
        rest = rest.substring_char(k + 1, n);
        proof {
            assert(rest@ =~= old_rest.skip(k + 1));
            assert(pids@.map_values(|p: String| p@) + spec_pid_lines(rest@) =~= old_pids.map_values(
                |p: String| p@,
            ) + spec_pid_lines(old_rest));
        }
    }
    pids
}

} // verus!
