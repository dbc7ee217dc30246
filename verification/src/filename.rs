//! Collision-resistant names for downloaded files: the current Unix time,
//! an underscore, a random alphanumeric suffix and the `.mid` extension.
//! The format is verified; the clock and the randomness come from trusted
//! wrappers, and the format function is proved injective in the suffix, so
//! two downloads in the same second collide only if the random suffixes
//! collide.

use vstd::prelude::*;
use vstd::string::*;

use rand::distributions::Alphanumeric;
use rand::{thread_rng, Rng};
use std::time::{SystemTime, UNIX_EPOCH};

use crate::numfmt::{spec_dec_digits, u64_to_string};

verus! {

/// The length of the random part of a filename.
pub const SUFFIX_LEN: usize = 8;

/// An ASCII letter or digit.
pub open spec fn is_alphanumeric_char(c: char) -> bool {
    ('0' <= c && c <= '9') || ('A' <= c && c <= 'Z') || ('a' <= c && c <= 'z')
}

/// The filename built for a download finished at `timestamp` with the
/// random suffix `suffix`.
pub open spec fn spec_midi_filename(timestamp: nat, suffix: Seq<char>) -> Seq<char> {
    spec_dec_digits(timestamp) + seq!['_'] + suffix + ".mid"@
}

/// Relies on rand's `Alphanumeric` distribution: every sampled byte is an
/// ASCII letter or digit, so the collected string has exactly `len` such
/// characters.
#[verifier::external_body]
fn random_alphanumeric(len: usize) -> (r: String)
    ensures
        r@.len() == len,
        forall|i: int| 0 <= i < r@.len() ==> is_alphanumeric_char(#[trigger] r@[i]),
{
    thread_rng().sample_iter(&Alphanumeric).take(len).map(char::from).collect()
}

/// Relies on `SystemTime::now`: seconds since the Unix epoch, or zero if
/// the clock reads earlier than the epoch. Nothing can be promised about
/// the value itself.
#[verifier::external_body]
fn unix_time_secs() -> u64 {
    SystemTime::now().duration_since(UNIX_EPOCH).unwrap_or_default().as_secs()
}

/// Build the filename for the given second and random suffix.
pub fn build_midi_filename(timestamp: u64, suffix: &str) -> (r: String)
    ensures
        r@ == spec_midi_filename(timestamp as nat, suffix@),
{
    proof {
        reveal_strlit("_");
    }
    let mut out = u64_to_string(timestamp);
    out.append("_");
    out.append(suffix);
    out.append(".mid");
    proof {
        assert("_"@ =~= seq!['_']);
        assert(out@ =~= spec_midi_filename(timestamp as nat, suffix@));
    }
    out
}

/// A fresh name for one download: the clock's current second and a random
/// 8-character alphanumeric suffix, in the verified format.
pub fn generate_unique_filename() -> (r: String)
    ensures
        exists|timestamp: nat, suffix: Seq<char>|
            {
                &&& r@ == spec_midi_filename(timestamp, suffix)
                &&& suffix.len() == SUFFIX_LEN
                &&& forall|i: int| 0 <= i < suffix.len() ==> is_alphanumeric_char(
                    #[trigger] suffix[i],
                )
            },
{
    let timestamp = unix_time_secs();
    let suffix = random_alphanumeric(SUFFIX_LEN);
    let name = build_midi_filename(timestamp, suffix.as_str());
    proof {
        assert({
            &&& name@ == spec_midi_filename(timestamp as nat, suffix@)
            &&& suffix@.len() == SUFFIX_LEN
            &&& forall|i: int| 0 <= i < suffix@.len() ==> is_alphanumeric_char(
                #[trigger] suffix@[i],
            )
        });
    }
    name
}

/// Within one second, distinct random suffixes of the fixed length give
/// distinct filenames: the format is injective in the suffix.
pub proof fn lemma_filename_injective_in_suffix(timestamp: nat, s1: Seq<char>, s2: Seq<char>)
    requires
        s1.len() == SUFFIX_LEN,
        s2.len() == SUFFIX_LEN,
        spec_midi_filename(timestamp, s1) == spec_midi_filename(timestamp, s2),
    ensures
        s1 == s2,
{
    let prefix = spec_dec_digits(timestamp) + seq!['_'];
    let f1 = spec_midi_filename(timestamp, s1);
    let f2 = spec_midi_filename(timestamp, s2);
    assert(f1.subrange(prefix.len() as int, prefix.len() + SUFFIX_LEN as int) =~= s1);
    assert(f2.subrange(prefix.len() as int, prefix.len() + SUFFIX_LEN as int) =~= s2);
    assert(s1 =~= s2);
}

} // verus!
