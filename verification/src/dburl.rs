//! Splitting a database URL into the server part and the database name: the
//! text after the last slash names the database, the text before it names
//! the server. A URL without a slash has no database name.
use vstd::prelude::*;

verus! {

/// The position of the last slash in `s`, if any.
pub open spec fn spec_rfind_slash(s: Seq<char>) -> Option<int>
    decreases s.len(),
{
    if s.len() == 0 {
        None
    } else if s[s.len() - 1] == '/' {
        Some(s.len() - 1)
    } else {
        spec_rfind_slash(s.drop_last())
    }
}

/// Splits a database URL at its last slash into the server URL and the
/// database name. Nothing when the text holds no slash.
pub fn parse_database_url(database_url: &str) -> (r: Option<(String, String)>)
    ensures
        match spec_rfind_slash(database_url@) {
            Some(k) => r matches Some(p) && p.0@ == database_url@.subrange(0, k) && p.1@
                == database_url@.subrange(k + 1, database_url@.len() as int),
            None => r is None,
        },
{
    let n = database_url.unicode_len();
    let mut j: usize = n;
    proof {
        assert(database_url@.subrange(0, n as int) =~= database_url@);
    }
    while j > 0
        invariant
            0 <= j <= n,
            n == database_url@.len(),
            spec_rfind_slash(database_url@) == spec_rfind_slash(
                database_url@.subrange(0, j as int),
            ),
            forall|k: int| j <= k < n ==> #[trigger] database_url@[k] != '/',
        decreases j,
    {
        let c = database_url.get_char(j - 1);
        proof {
            assert(database_url@.subrange(0, j as int).drop_last() =~= database_url@.subrange(
                0,
                j - 1 as int,
            ));
            assert(database_url@.subrange(0, j as int).last() == database_url@[j - 1]);
        }
        if c == '/' {
            let base = database_url.substring_char(0, j - 1);
            let name = database_url.substring_char(j, n);
            proof {
                assert(spec_rfind_slash(database_url@.subrange(0, j as int)) == Some(j - 1));
            }
            return Some((base.to_owned(), name.to_owned()));
        }
        j = j - 1;
    }
    proof {
        assert(database_url@.subrange(0, 0) =~= Seq::<char>::empty());
    }
    None
}

} // verus!
