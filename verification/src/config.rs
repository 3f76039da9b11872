use vstd::prelude::*;
use vstd::string::StrSliceExecFns;

verus! {

/// The resolved runtime configuration of the daemon: which directory to
/// watch, how to author commits, and whether to push to a remote.
pub struct BackerConfig {
    pub repo_path: String,
    pub file_monitor_freq: String,
    pub commit_delay: String,
    pub sign_name: String,
    pub sign_email: String,
    pub default_commit_msg: String,
    pub should_push_to_remote: bool,
    pub ssh_private_key: String,
}

/// A configuration fault, found and reported before any watching begins.
#[derive(Debug)]
pub enum ConfigError {
    /// A remote URL was given without the SSH private key needed to push.
    MissingPrivateKey,
}

/// Whether remote synchronization is enabled: absence of a remote URL
/// disables push entirely, presence with a key enables it, and presence
/// without a key is a configuration error.
pub fn resolve_push_mode(remote_url: Option<&str>, ssh_private_key: &str) -> (r: Result<
    bool,
    ConfigError,
>)
    ensures
        remote_url is None ==> r == Ok::<bool, ConfigError>(false),
        remote_url is Some && ssh_private_key@.len() > 0 ==> r == Ok::<bool, ConfigError>(true),
        remote_url is Some && ssh_private_key@.len() == 0 ==> r == Err::<bool, ConfigError>(
            ConfigError::MissingPrivateKey,
        ),
{
    match remote_url {
        Some(_) => {
            if ssh_private_key.is_empty() {
                Err(ConfigError::MissingPrivateKey)
            } else {
                Ok(true)
            }
        },
        None => Ok(false),
    }
}

/// A decimal digit.
pub open spec fn is_digit(c: char) -> bool {
    48 <= c as int <= 57
}

/// The numeric value of a decimal digit.
pub open spec fn digit_val(c: char) -> int {
    c as int - 48
}

/// Every character of the sequence is a decimal digit.
pub open spec fn all_digits(s: Seq<char>) -> bool {
    forall|i: int| 0 <= i < s.len() ==> is_digit(#[trigger] s[i])
}

/// The value of a sequence of decimal digits, most significant first.
pub open spec fn dec_value(s: Seq<char>) -> int
    decreases s.len(),
{
    if s.len() == 0 {
        0
    } else {
        dec_value(s.drop_last()) * 10 + digit_val(s.last())
    }
}

proof fn lemma_dec_value_nonneg(s: Seq<char>)
    requires
        all_digits(s),
    ensures
        dec_value(s) >= 0,
    decreases s.len(),
{
    if s.len() > 0 {
        assert(all_digits(s.drop_last()));
        lemma_dec_value_nonneg(s.drop_last());
    }
}

/// Extending a digit string can only grow its value: the whole string's
/// value is at least any prefix's value.
proof fn lemma_dec_value_prefix_le(s: Seq<char>, k: int)
    requires
        all_digits(s),
        0 <= k <= s.len(),
    ensures
        dec_value(s.subrange(0, k)) <= dec_value(s),
    decreases s.len(),
{
    if k == s.len() {
        assert(s.subrange(0, k) =~= s);
    } else {
        let front = s.drop_last();
        assert(all_digits(front));
        assert(front.subrange(0, k) =~= s.subrange(0, k));
        lemma_dec_value_prefix_le(front, k);
        lemma_dec_value_nonneg(front);
    }
}

/// Parses a whole-seconds value as the CLI carries it: the string must be
/// one or more decimal digits whose value fits in a `u64`; anything else is
/// rejected rather than panicking.
pub fn parse_seconds(s: &str) -> (r: Option<u64>)
    ensures
        r matches Some(v) ==> s@.len() > 0 && all_digits(s@) && v == dec_value(s@),
        r is None ==> s@.len() == 0 || !all_digits(s@) || dec_value(s@) > u64::MAX,
{
    let n = s.unicode_len();
    if n == 0 {
        return None;
    }
    let mut value: u64 = 0;
    let mut i: usize = 0;
    while i < n
        invariant
            0 <= i <= n,
            n == s@.len(),
            all_digits(s@.subrange(0, i as int)),
            value == dec_value(s@.subrange(0, i as int)),
        decreases n - i,
    {
        let c = s.get_char(i);
        let u: u32 = c as u32;
        if u < 48 || u > 57 {
            return None;
        }
        let d: u64 = (u - 48) as u64;
        proof {
            assert(s@.subrange(0, (i + 1) as int).drop_last() =~= s@.subrange(0, i as int));
            assert(s@.subrange(0, (i + 1) as int).last() == s@[i as int]);
        }
        if value > u64::MAX / 10 || (value == u64::MAX / 10 && d > u64::MAX % 10) {
            proof {
                if all_digits(s@) {
                    lemma_dec_value_prefix_le(s@, (i + 1) as int);
                }
            }
            return None;
        }
        value = value * 10 + d;
        i = i + 1;
    }
    proof {
        assert(s@.subrange(0, n as int) =~= s@);
    }
    Some(value)
}

} // verus!
