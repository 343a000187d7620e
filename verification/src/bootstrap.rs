//! Setting up the first administrator: a random password, the admin role,
//! and whether the administrator still needs a role.
use vstd::prelude::*;
use vstd::string::*;

use vstd::arithmetic::div_mod::lemma_div_denominator;
use vstd::arithmetic::power::{lemma_pow_positive, pow};

use crate::payment::base32_secret_bytes;
use crate::text::{parse_i64, parse_i64_text, str_eq};
use crate::values::DecimalValue;

verus! {

broadcast use vstd::string::group_string_axioms;

/// The characters a generated password is made of.
pub open spec fn password_alphabet() -> Seq<char> {
    "ABCDEFGHIJKLMNOPQRSTUVWXYZabcdefghijklmnopqrstuvwxyz0123456789"@
}

/// Length of a generated password.
pub const PASSWORD_LENGTH: usize = 12;

/// A random index below `n` (`rand::random_range(0..n)`, which panics on an
/// empty range).
#[verifier::external_body]
fn random_index(n: usize) -> (r: usize)
    requires
        n > 0,
    ensures
        r < n,
{
    rand::random_range(0..n)
}

/// The password that drawn indices spell: each index picks its character
/// of the alphabet.
pub open spec fn password_of_indices(indices: Seq<usize>) -> Seq<char> {
    indices.map_values(|i: usize| password_alphabet()[i as int])
}

/// The password that the indices spell, each picking a character of the
/// alphabet.
pub fn password_of(indices: &Vec<usize>) -> (r: String)
    requires
        forall|k: int| 0 <= k < indices@.len() ==> #[trigger] indices@[k] < 62,
    ensures
        r@ == password_of_indices(indices@),
{
    let chars = "ABCDEFGHIJKLMNOPQRSTUVWXYZabcdefghijklmnopqrstuvwxyz0123456789";
    proof {
        reveal_strlit("ABCDEFGHIJKLMNOPQRSTUVWXYZabcdefghijklmnopqrstuvwxyz0123456789");
    }
    let mut password = String::new();
    let mut i: usize = 0;
    while i < indices.len()
        invariant
            i <= indices@.len(),
            chars@ == password_alphabet(),
            chars@.len() == 62,
            forall|k: int| 0 <= k < indices@.len() ==> #[trigger] indices@[k] < 62,
            password@ == password_of_indices(indices@.take(i as int)),
        decreases indices.len() - i,
    {
        let idx = indices[i];
        let piece = chars.substring_char(idx, idx + 1);
        let ghost before = password@;
        password.append(piece);
        proof {
            assert(piece@ =~= seq![chars@[idx as int]]);
            assert(password_of_indices(indices@.take(i + 1)) =~= password_of_indices(
                indices@.take(i as int),
            ).push(password_alphabet()[idx as int]));
            assert(password@ =~= before.push(chars@[idx as int]));
        }
        i = i + 1;
    }
    proof {
        assert(indices@.take(indices@.len() as int) =~= indices@);
    }
    password
}

/// A random password of 12 characters: 12 indices drawn at random below 62,
/// each picking a letter or a digit. Which indices are drawn is left to
/// chance.
pub fn generate_random_password() -> (r: String)
    ensures
        exists|indices: Seq<usize>|
            indices.len() == PASSWORD_LENGTH && (forall|k: int|
                0 <= k < indices.len() ==> #[trigger] indices[k] < 62) && r@
                == #[trigger] password_of_indices(indices),
        r@.len() == PASSWORD_LENGTH,
        forall|k: int| 0 <= k < r@.len() ==> password_alphabet().contains(#[trigger] r@[k]),
{
    let mut indices: Vec<usize> = Vec::new();
    while indices.len() < PASSWORD_LENGTH
        invariant
            indices@.len() <= PASSWORD_LENGTH,
            forall|k: int| 0 <= k < indices@.len() ==> #[trigger] indices@[k] < 62,
        decreases PASSWORD_LENGTH - indices@.len(),
    {
        let idx = random_index(62);
        indices.push(idx);
        proof {
            assert forall|k: int| 0 <= k < indices@.len() implies #[trigger] indices@[k] < 62 by {
                if k < indices@.len() - 1 {
                    assert(indices@[k] == indices@.drop_last()[k]);
                }
            }
        }
    }
    let password = password_of(&indices);
    proof {
        reveal_strlit("ABCDEFGHIJKLMNOPQRSTUVWXYZabcdefghijklmnopqrstuvwxyz0123456789");
        assert forall|k: int| 0 <= k < password@.len() implies password_alphabet().contains(
            #[trigger] password@[k],
        ) by {
            assert(password@[k] == password_alphabet()[indices@[k] as int]);
            assert(0 <= indices@[k] < password_alphabet().len());
        }
    }
    password
}

/// The id of the first `(id, name)` pair called `name`, if there is one.
pub open spec fn first_id_named(pairs: Seq<(i64, String)>, name: Seq<char>) -> Option<i64>
    decreases pairs.len(),
{
    if pairs.len() == 0 {
        None
    } else if pairs[0].1@ == name {
        Some(pairs[0].0)
    } else {
        first_id_named(pairs.drop_first(), name)
    }
}

/// The id of the first `(id, name)` pair called `name`: the admin role among
/// the roles, or a category the seed finds already there.
pub fn find_id_by_name(pairs: &Vec<(i64, String)>, name: &str) -> (r: Option<i64>)
    ensures
        r == first_id_named(pairs@, name@),
{
    let mut i: usize = 0;
    assert(pairs@.skip(0) =~= pairs@);
    while i < pairs.len()
        invariant
            i <= pairs@.len(),
            first_id_named(pairs@, name@) == first_id_named(pairs@.skip(i as int), name@),
        decreases pairs.len() - i,
    {
        proof {
            assert(pairs@.skip(i as int)[0] == pairs@[i as int]);
            assert(pairs@.skip(i as int).drop_first() =~= pairs@.skip(i + 1));
        }
        if str_eq(pairs[i].1.as_str(), name) {
            return Some(pairs[i].0);
        }
        i = i + 1;
    }
    proof {
        assert(pairs@.skip(i as int) =~= Seq::<(i64, String)>::empty());
    }
    None
}

/// The administrator gets the role only when its roles could be read and it has none.
pub fn needs_role_assignment(roles_lookup_succeeded: bool, role_count: usize) -> (r: bool)
    ensures
        r == (roles_lookup_succeeded && role_count == 0),
{
    roles_lookup_succeeded && role_count == 0
}

/// A new two-factor secret: 20 random bytes (`totp_rs::Secret::generate_secret`),
/// written in base32 without padding (`to_encoded`), 32 characters that
/// decode back to the 20 bytes.
#[verifier::external_body]
fn generate_totp_secret() -> (r: String)
    ensures
        r@.len() == 32,
        match base32_secret_bytes(r@) {
            Some(b) => b.len() == 20,
            None => false,
        },
{
    totp_rs::Secret::generate_secret().to_encoded().to_string()
}

/// Does `bcrypt::verify` accept `password` against `hash`? It reads the cost
/// and salt from the hash and hashes the password again, so its answer rests
/// on its two arguments alone.
pub uninterp spec fn bcrypt_verifies(password: Seq<char>, hash: Seq<char>) -> bool;

/// The bcrypt hash of a password at the default cost of 12
/// (`bcrypt::hash`), with a random salt: `$2b$12$`, the salt and the hash,
/// 60 characters, which `bcrypt::verify` accepts for the password (both
/// hash the password's first 72 bytes with the same salt and cost). It fails
/// only when no randomness can be had. Which salt is drawn is left unsaid.
#[verifier::external_body]
fn hash_password(password: &str) -> (r: Result<String, String>)
    ensures
        r matches Ok(h) ==> h@.len() == 60 && h@.take(7) == "$2b$12$"@ && bcrypt_verifies(
            password@,
            h@,
        ),
{
    bcrypt::hash(password, bcrypt::DEFAULT_COST).map_err(|e| e.to_string())
}

/// The credentials of the first administrator, before it is stored.
#[derive(Debug)]
pub struct AdminCredentials {
    pub login: String,
    pub password: String,
    pub two_fa: String,
    pub hashed_password: String,
}

/// The credentials of a new administrator: the given password, else a
/// random one; the given two-factor secret, else a new one; and the
/// password's bcrypt hash. Fails only when the hash cannot be made.
pub fn admin_credentials(login: String, password: Option<String>, two_fa: Option<String>) -> (r:
    Result<AdminCredentials, String>)
    ensures
        r matches Ok(c) ==> {
            &&& c.login == login
            &&& match password {
                Some(p) => c.password == p,
                None => c.password@.len() == PASSWORD_LENGTH && forall|k: int|
                    0 <= k < c.password@.len() ==> password_alphabet().contains(
                        #[trigger] c.password@[k],
                    ),
            }
            &&& match two_fa {
                Some(t) => c.two_fa == t,
                None => base32_secret_bytes(c.two_fa@) matches Some(b) && b.len() == 20,
            }
            &&& c.hashed_password@.len() == 60
            &&& c.hashed_password@.take(7) == "$2b$12$"@
            &&& bcrypt_verifies(c.password@, c.hashed_password@)
        },
{
    let password = match password {
        Some(p) => p,
        None => generate_random_password(),
    };
    let two_fa = match two_fa {
        Some(t) => t,
        None => generate_totp_secret(),
    };
    let hashed_password = hash_password(password.as_str())?;
    Ok(AdminCredentials { login, password, two_fa, hashed_password })
}

/// The permissions the admin role lacks, in the order of the list of all
/// permissions; none when the role's permissions could not be read.
pub open spec fn missing_permission_ids(all: Seq<i64>, assigned: Option<Seq<i64>>) -> Seq<i64> {
    match assigned {
        Some(a) => all.filter(|p: i64| !a.contains(p)),
        None => Seq::empty(),
    }
}

/// The permissions to grant the admin role: every permission it does not
/// hold yet, or none when its permissions could not be read.
pub fn missing_permissions(all: &Vec<i64>, assigned: Option<&Vec<i64>>) -> (r: Vec<i64>)
    ensures
        r@ == missing_permission_ids(
            all@,
            match assigned {
                Some(a) => Some(a@),
                None => None,
            },
        ),
{
    let mut r: Vec<i64> = Vec::new();
    match assigned {
        None => r,
        Some(a) => {
            let mut i: usize = 0;
            while i < all.len()
                invariant
                    i <= all@.len(),
                    r@ == all@.take(i as int).filter(|p: i64| !a@.contains(p)),
                decreases all.len() - i,
            {
                let p = all[i];
                let mut held = false;
                let mut j: usize = 0;
                while j < a.len()
                    invariant
                        j <= a@.len(),
                        held == a@.take(j as int).contains(p),
                    decreases a.len() - j,
                {
                    proof {
                        assert(a@.take(j + 1) =~= a@.take(j as int).push(a@[j as int]));
                        vstd::seq_lib::lemma_seq_contains_after_push(a@.take(j as int), a@[j as int], p);
                    }
                    if a[j] == p {
                        held = true;
                    }
                    j = j + 1;
                }
                proof {
                    assert(a@.take(a@.len() as int) =~= a@);
                    assert(all@.take(i + 1) =~= all@.take(i as int).push(p));
                    all@.take(i as int).lemma_filter_push(p, |q: i64| !a@.contains(q));
                }
                if !held {
                    r.push(p);
                }
                i = i + 1;
            }
            proof {
                assert(all@.take(all@.len() as int) =~= all@);
            }
            r
        },
    }
}

/// `m` divided by `d`, rounded toward zero.
pub open spec fn div_toward_zero(m: int, d: int) -> int {
    if m >= 0 {
        m / d
    } else {
        -((-m) / d)
    }
}

/// A decimal as a whole number (`ToPrimitive::to_i64` of `rust_decimal`): its
/// value with the fraction cut off, when that fits an `i64`.
pub open spec fn decimal_whole(d: DecimalValue) -> Option<i64> {
    let w = div_toward_zero(d.mantissa as int, pow(10, d.scale as nat));
    if i64::MIN <= w <= i64::MAX {
        Some(w as i64)
    } else {
        None
    }
}

/// The whole part of a decimal, when it fits an `i64`.
pub fn decimal_to_i64(d: DecimalValue) -> (r: Option<i64>)
    ensures
        r == decimal_whole(d),
{
    let negative = d.mantissa < 0;
    let mut magnitude: u128 = if negative {
        (0i128 - (d.mantissa + 1)) as u128 + 1
    } else {
        d.mantissa as u128
    };
    let ghost m: int = if negative { -(d.mantissa as int) } else { d.mantissa as int };
    let mut k: u32 = 0;
    proof {
        assert(pow(10, 0) == 1) by {
            vstd::arithmetic::power::lemma_pow0(10);
        }
    }
    while k < d.scale
        invariant
            k <= d.scale,
            m >= 0,
            m == if negative { -(d.mantissa as int) } else { d.mantissa as int },
            magnitude == m / pow(10, k as nat),
        decreases d.scale - k,
    {
        proof {
            lemma_pow_positive(10, k as nat);
            lemma_div_denominator(m, pow(10, k as nat), 10);
            vstd::arithmetic::power::lemma_pow_adds(10, k as nat, 1);
            vstd::arithmetic::power::lemma_pow1(10);
        }
        magnitude = magnitude / 10;
        k = k + 1;
    }
    proof {
        lemma_pow_positive(10, d.scale as nat);
    }
    if negative {
        if magnitude <= 9223372036854775808u128 {
            if magnitude == 9223372036854775808u128 {
                Some(i64::MIN)
            } else {
                Some(0i64 - (magnitude as i64))
            }
        } else {
            None
        }
    } else if magnitude <= 9223372036854775807u128 {
        Some(magnitude as i64)
    } else {
        None
    }
}

/// What the first start does about the store balance.
#[derive(Debug, PartialEq, Eq)]
pub enum StoreBalanceStep {
    /// The balance is known: there is nothing to create.
    Known(i64),
    /// A deposit of this amount opens the store balance.
    OpenWith(i64),
}

/// The store balance at the first start: that after the last transaction
/// when there is one (its whole part, or 0 when that does not fit an
/// `i64`); else a deposit of the configured initial balance when that is a
/// positive whole number; else 0.
pub fn initial_store_balance(last_balance: Option<DecimalValue>, configured: Option<&str>) -> (r:
    StoreBalanceStep)
    ensures
        last_balance matches Some(b) ==> r == StoreBalanceStep::Known(
            match decimal_whole(b) {
                Some(w) => w,
                None => 0,
            },
        ),
        last_balance is None ==> r == match configured {
            Some(t) => match parse_i64_text(t@) {
                Some(v) => if v > 0 {
                    StoreBalanceStep::OpenWith(v)
                } else {
                    StoreBalanceStep::Known(0)
                },
                None => StoreBalanceStep::Known(0),
            },
            None => StoreBalanceStep::Known(0),
        },
{
    match last_balance {
        Some(b) => StoreBalanceStep::Known(
            match decimal_to_i64(b) {
                Some(w) => w,
                None => 0,
            },
        ),
        None => match configured {
            Some(t) => match parse_i64(t) {
                Some(v) => if v > 0 {
                    StoreBalanceStep::OpenWith(v)
                } else {
                    StoreBalanceStep::Known(0)
                },
                None => StoreBalanceStep::Known(0),
            },
            None => StoreBalanceStep::Known(0),
        },
    }
}

} // verus!
