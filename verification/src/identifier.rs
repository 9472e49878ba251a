//! Identifiers of requests, subscriptions and connections.
use vstd::prelude::*;

verus! {

/// A universally unique identifier, held as its 128 bits in big-endian order.
#[derive(Clone, Copy, Debug, PartialEq, Eq, Hash, Structural)]
pub struct Uuid {
    /// The identifier's bits.
    pub bits: u128,
}

/// The bits of a randomly drawn identifier: version 4, variant 1.
pub open spec fn is_v4_bits(bits: u128) -> bool {
    (bits >> 76u128) & 0xfu128 == 4u128 && (bits >> 62u128) & 0x3u128 == 2u128
}

/// Draws the bits of a random identifier by `uuid::Uuid::new_v4`, read out by
/// `uuid::Uuid::as_u128`.
///
/// Claimed of every draw: the version field holds 4 and the variant field holds
/// binary 10. The other bits are left to chance, so nothing says that two draws
/// differ. The call ends the program where the system has no random bytes to give.
#[verifier::external_body]
fn random_bits() -> (bits: u128)
    ensures
        is_v4_bits(bits),
{
    uuid::Uuid::new_v4().as_u128()
}

impl Uuid {
    /// Drawn at random, as far as the version and variant fields tell.
    pub open spec fn is_v4(self) -> bool {
        is_v4_bits(self.bits)
    }

    /// Draws a random identifier.
    pub fn new_v4() -> (id: Self)
        ensures
            id.is_v4(),
    {
        Uuid { bits: random_bits() }
    }

    /// The bits in which the sibling of a number differs from the identifier itself. They
    /// lie outside the version and variant fields.
    pub open spec fn sibling_mask(number: u64) -> u128 {
        (((number as u128) >> 16u128) << 80u128) | ((number as u128) & 0xffffu128)
    }

    /// The identifier of the same version and variant that a number leads to: another one
    /// for each number, and the identifier itself for zero.
    pub fn sibling(&self, number: u64) -> (id: Self)
        ensures
            id.bits == self.bits ^ Uuid::sibling_mask(number),
    {
        let wide: u128 = number as u128;
        Uuid { bits: self.bits ^ (((wide >> 16u128) << 80u128) | (wide & 0xffffu128)) }
    }

    /// The identifier with all bits zero.
    pub fn nil() -> (id: Self)
        ensures
            id.bits == 0,
    {
        Uuid { bits: 0 }
    }

    /// Whether all bits are zero.
    pub fn is_nil(&self) -> (nil: bool)
        ensures
            nil == (self.bits == 0),
    {
        self.bits == 0
    }
}

/// A randomly drawn identifier is never the nil identifier.
pub proof fn law_v4_is_not_nil(id: Uuid)
    requires
        id.is_v4(),
    ensures
        id.bits != 0,
{
    let bits = id.bits;
    assert((bits >> 76u128) & 0xfu128 == 4u128 ==> bits != 0) by (bit_vector);
}

/// A sibling of a randomly drawn identifier has the version and variant fields of one.
pub proof fn law_siblings_are_v4(id: Uuid, number: u64)
    requires
        id.is_v4(),
    ensures
        is_v4_bits(id.bits ^ Uuid::sibling_mask(number)),
{
    let bits = id.bits;
    assert((bits >> 76u128) & 0xfu128 == 4u128 && (bits >> 62u128) & 0x3u128 == 2u128 ==> ((bits ^ (
    (((number as u128) >> 16u128) << 80u128) | ((number as u128) & 0xffffu128))) >> 76u128)
        & 0xfu128 == 4u128 && ((bits ^ ((((number as u128) >> 16u128) << 80u128) | ((number as u128)
        & 0xffffu128))) >> 62u128) & 0x3u128 == 2u128) by (bit_vector);
}

/// Different numbers lead to different siblings, and zero to the identifier itself.
pub proof fn law_siblings_differ(id: Uuid, one: u64, other: u64)
    ensures
        id.bits ^ Uuid::sibling_mask(one) == id.bits ^ Uuid::sibling_mask(other) <==> one == other,
        id.bits ^ Uuid::sibling_mask(0) == id.bits,
{
    let bits = id.bits;
    assert(bits ^ ((((one as u128) >> 16u128) << 80u128) | ((one as u128) & 0xffffu128)) == bits ^ (
    (((other as u128) >> 16u128) << 80u128) | ((other as u128) & 0xffffu128)) ==> one == other)
        by (bit_vector);
    assert(bits ^ ((((0u64 as u128) >> 16u128) << 80u128) | ((0u64 as u128) & 0xffffu128)) == bits)
        by (bit_vector);
}

/// The identifiers that pass as randomly drawn are those whose thirteenth hexadecimal digit
/// is 4 and whose seventeenth is 8, 9, a or b.
pub proof fn law_v4_digits(id: Uuid)
    ensures
        id.is_v4() <==> {
            &&& (id.bits / 0x1000_0000_0000_0000_0000u128) % 16 == 4
            &&& 8 <= (id.bits / 0x1000_0000_0000_0000u128) % 16 <= 11
        },
{
    let bits = id.bits;
    assert(((bits >> 76u128) & 0xfu128 == 4u128 && (bits >> 62u128) & 0x3u128 == 2u128) == ((bits
        / 0x1000_0000_0000_0000_0000u128) % 16 == 4 && 8 <= (bits / 0x1000_0000_0000_0000u128) % 16
        && (bits / 0x1000_0000_0000_0000u128) % 16 <= 11)) by (bit_vector);
}

/// Names a request; the response to it carries the same name.
#[derive(Clone, Copy, Debug, PartialEq, Eq, Hash, Structural)]
pub enum ReqID {
    /// A number that the client chose.
    ReqIDInt(u64),
    /// A unique identifier.
    ReqIDUUID(Uuid),
}

impl Default for ReqID {
    /// A freshly drawn identifier.
    fn default() -> (id: Self)
        ensures
            id matches ReqID::ReqIDUUID(uuid) && uuid.is_v4(),
    {
        ReqID::ReqIDUUID(Uuid::new_v4())
    }
}

/// Names a subscription of a client.
#[derive(Clone, Copy, Debug, PartialEq, Eq, Hash, Structural)]
pub enum SubscriptionID {
    /// A unique identifier.
    SubscriptionIDUUID(Uuid),
}

impl SubscriptionID {
    /// The bits under which the subscription is filed.
    pub open spec fn spec_key(&self) -> u128 {
        match self {
            SubscriptionID::SubscriptionIDUUID(uuid) => uuid.bits,
        }
    }

    /// The bits under which the subscription is filed.
    #[verifier::when_used_as_spec(spec_key)]
    pub fn key(&self) -> (key: u128)
        ensures
            key == self.spec_key(),
    {
        match self {
            SubscriptionID::SubscriptionIDUUID(uuid) => uuid.bits,
        }
    }
}

/// A subscription is filed under all the bits of its name, so that no two names share a
/// key.
pub proof fn law_keys_tell_subscriptions_apart(one: SubscriptionID, other: SubscriptionID)
    ensures
        one.key() == one->SubscriptionIDUUID_0.bits,
        one.key() == other.key() <==> one == other,
{
}

} // verus!
