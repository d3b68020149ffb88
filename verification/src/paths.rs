//! Socket-path resolution: joining a relative socket name under a base
//! context directory, and generating fresh ephemeral liveness-socket paths.

use vstd::prelude::*;

use crate::hex::{hex16, to_hex16};
use nanorand::rand::chacha::ChaCha20;
use nanorand::rand::Rng;

verus! {

/// What joining the relative `name` under the directory `base` yields: the
/// two joined by exactly one separator, as a path-buffer push does.
pub open spec fn path_join(base: Seq<char>, name: Seq<char>) -> Seq<char> {
    if base.len() == 0 {
        name
    } else if base.last() == '/' {
        base + name
    } else {
        base + seq!['/'] + name
    }
}

/// Joins the relative file name `name` under the directory `base`.
pub fn join_under_base(base: &str, name: &str) -> (r: String)
    requires
        name@.len() > 0,
        name@[0] != '/',
    ensures
        r@ == path_join(base@, name@),
{
    proof {
        reveal_strlit("/");
    }
    let base_len = base.unicode_len();
    if base_len == 0 {
        return String::from_str(name);
    }
    let mut r = String::from_str(base);
    if base.get_char(base_len - 1) != '/' {
        r.append("/");
        proof {
            assert(r@ =~= base@ + seq!['/']);
        }
    }
    r.append(name);
    proof {
        if base@.last() == '/' {
            assert(r@ =~= base@ + name@);
        } else {
            assert(r@ =~= base@ + seq!['/'] + name@);
        }
    }
    r
}

/// Within one base context directory, distinct socket names resolve to
/// distinct paths: services that keep their socket names unique cannot
/// collide on one socket file.
pub proof fn lemma_distinct_names_distinct_paths(base: Seq<char>, n1: Seq<char>, n2: Seq<char>)
    requires
        n1 != n2,
    ensures
        path_join(base, n1) != path_join(base, n2),
{
    if base.len() == 0 {
    } else {
        let prefix = if base.last() == '/' {
            base
        } else {
            base + seq!['/']
        };
        assert(path_join(base, n1) == prefix + n1);
        assert(path_join(base, n2) == prefix + n2);
        if path_join(base, n1) == path_join(base, n2) {
            assert(n1 =~= (prefix + n1).subrange(prefix.len() as int, (prefix + n1).len() as int));
            assert(n2 =~= (prefix + n2).subrange(prefix.len() as int, (prefix + n2).len() as int));
        }
    }
}

/// The file name of the ephemeral liveness socket drawn for the random value
/// `n`: `temp-` followed by the 16-digit lowercase hexadecimal form of `n`
/// and the `.sock` suffix.
pub open spec fn liveness_socket_name(n: u64) -> Seq<char> {
    "temp-"@ + hex16(n) + ".sock"@
}

/// Draws an unpredictable 64-bit value from a freshly seeded stream-cipher
/// generator.  Nothing is promised of the result: every caller must be
/// correct whatever value comes back.
///
/// Relies on `nanorand::rand::chacha::ChaCha20::new` to seed a generator from
/// system entropy, and on `nanorand::rand::Rng::generate` to draw a `u64`
/// from it.
#[verifier::external_body]
fn random_u64() -> u64 {
    let mut generator = ChaCha20::new();
    generator.generate::<u64>()
}

/// Produces a fresh ephemeral liveness-socket path under the directory
/// `temp_dir`: `temp-<16 lowercase hex digits>.sock` joined under it, with
/// the digits drawn from a cryptographically seeded generator.
pub fn fresh_liveness_path(temp_dir: &str) -> (r: String)
    ensures
        exists|n: u64| r@ == path_join(temp_dir@, liveness_socket_name(n)),
{
    proof {
        reveal_strlit("temp-");
        reveal_strlit(".sock");
    }
    let n = random_u64();
    let mut name = String::from_str("temp-");
    let digits = to_hex16(n);
    name.append(digits.as_str());
    name.append(".sock");
    proof {
        assert(name@ =~= liveness_socket_name(n));
        assert(name@[0] == 't');
    }
    let r = join_under_base(temp_dir, name.as_str());
    proof {
        assert(r@ == path_join(temp_dir@, liveness_socket_name(n)));
    }
    r
}

} // verus!
