use vstd::prelude::*;

verus! {

/// What bcrypt's `verify` answers for a password and a stored hash: `None` when
/// the hash is malformed, else whether the password matches it.
pub uninterp spec fn bcrypt_verdict(password: Seq<char>, hash: Seq<char>) -> Option<bool>;

/// The smallest and largest work factors that bcrypt accepts.
pub const MIN_COST: u32 = 4;
pub const MAX_COST: u32 = 31;
/// The work factor used unless another is chosen.
pub const DEFAULT_COST: u32 = 12;

/// Relies on `bcrypt::hash`: a salted hash with the given cost, which `bcrypt::verify`
/// accepts for the same password. It fails only when no random salt can be drawn.
#[verifier::external_body]
fn bcrypt_hash(password: &str, cost: u32) -> (r: Result<String, String>)
    requires
        MIN_COST <= cost <= MAX_COST,
    ensures
        r matches Ok(h) ==> bcrypt_verdict(password@, h@) == Some(true),
{
    bcrypt::hash(password, cost).map_err(|e| e.to_string())
}

/// Relies on `bcrypt::verify`: it fails on a malformed hash, and otherwise tells
/// whether the password hashes to the stored value under the stored salt and cost.
#[verifier::external_body]
fn bcrypt_verify(password: &str, hash: &str) -> (r: Result<bool, String>)
    ensures
        r is Ok <==> bcrypt_verdict(password@, hash@) is Some,
        r matches Ok(b) ==> bcrypt_verdict(password@, hash@) == Some(b),
{
    bcrypt::verify(password, hash).map_err(|e| e.to_string())
}

/// One-way, salted password hashing with a fixed work factor.
pub struct PasswordHasher {
    pub cost: u32,
}

impl PasswordHasher {
    pub open spec fn wf(&self) -> bool {
        MIN_COST <= self.cost <= MAX_COST
    }

    pub fn new() -> (h: PasswordHasher)
        ensures
            h.wf(),
            h.cost == DEFAULT_COST,
    {
        PasswordHasher { cost: DEFAULT_COST }
    }

    /// A hasher with the given work factor, if bcrypt accepts it.
    pub fn with_cost(cost: u32) -> (h: Option<PasswordHasher>)
        ensures
            h is Some <==> MIN_COST <= cost <= MAX_COST,
            h matches Some(x) ==> x.cost == cost,
    {
        if MIN_COST <= cost && cost <= MAX_COST {
            Some(PasswordHasher { cost })
        } else {
            None
        }
    }

    /// Hashes a password; the hash is accepted by `verify` for that password.
    pub fn hash(&self, password: &str) -> (r: Result<String, crate::error::AppError>)
        requires
            self.wf(),
        ensures
            r matches Ok(h) ==> bcrypt_verdict(password@, h@) == Some(true),
            r matches Err(e) ==> e.spec_kind() == crate::error::ErrorKind::Hashing,
    {
        match bcrypt_hash(password, self.cost) {
            Ok(h) => Ok(h),
            Err(m) => Err(crate::error::AppError::HashingError(m)),
        }
    }

    /// Tells whether a password matches a stored hash; a malformed hash is a
    /// hashing error.
    pub fn verify(&self, password: &str, hash: &str) -> (r: Result<bool, crate::error::AppError>)
        ensures
            r is Ok <==> bcrypt_verdict(password@, hash@) is Some,
            r matches Ok(b) ==> bcrypt_verdict(password@, hash@) == Some(b),
            r matches Err(e) ==> e.spec_kind() == crate::error::ErrorKind::Hashing,
    {
        match bcrypt_verify(password, hash) {
            Ok(b) => Ok(b),
            Err(m) => Err(crate::error::AppError::HashingError(m)),
        }
    }
}

} // verus!
