use vstd::arithmetic::power::{
    lemma_pow0, lemma_pow1, lemma_pow_adds, lemma_pow_strictly_increases_converse, pow,
};
use vstd::arithmetic::power2::pow2;
use vstd::prelude::*;

use num_bigint_dig::BigUint;
use num_bigint_dig::RandBigInt;
use num_traits::FromPrimitive;

verus! {

/// The number that big-endian bytes spell.
pub open spec fn be_value(bs: Seq<u8>) -> nat
    decreases bs.len(),
{
    if bs.len() == 0 {
        0
    } else {
        be_value(bs.drop_last()) * 256 + bs.last() as nat
    }
}

/// The number that little-endian base 2^32 digits spell.
pub open spec fn digits_value(ds: Seq<u32>) -> nat
    decreases ds.len(),
{
    if ds.len() == 0 {
        0
    } else {
        ds[0] as nat + 0x1_0000_0000 * digits_value(ds.drop_first())
    }
}

/// Whether bytes are the minimal big-endian encoding of their number, as
/// `BigUint::to_bytes_be` writes it: `[0]` for zero, otherwise no leading zero byte.
pub open spec fn is_minimal_be(bs: Seq<u8>) -> bool {
    bs.len() >= 1 && (bs.len() > 1 ==> bs[0] != 0)
}

/// The fewest bits that express `n`.
pub open spec fn bit_length(n: nat) -> nat
    decreases n,
{
    if n == 0 {
        0
    } else {
        1 + bit_length(n / 2)
    }
}

/// `(base ^ exponent) mod modulus`.
pub open spec fn mod_exp(base: nat, exponent: nat, modulus: nat) -> nat {
    (pow(base as int, exponent) % (modulus as int)) as nat
}

/// Relies on `BigUint::modpow`, which returns `(self ^ exponent) % modulus`
/// and panics only on a zero modulus; `from_bytes_be` and `to_bytes_be`
/// convert between big-endian bytes and `BigUint`.
#[verifier::external_body]
fn modpow_be(base: &Vec<u8>, exponent: &Vec<u8>, modulus: &Vec<u8>) -> (r: Vec<u8>)
    requires
        be_value(modulus@) > 0,
    ensures
        be_value(r@) == mod_exp(be_value(base@), be_value(exponent@), be_value(modulus@)),
        is_minimal_be(r@),
{
    let b = BigUint::from_bytes_be(base);
    let e = BigUint::from_bytes_be(exponent);
    let m = BigUint::from_bytes_be(modulus);
    b.modpow(&e, &m).to_bytes_be()
}

/// Relies on `RandBigInt::gen_biguint` over `rand::thread_rng`: a random
/// number of at most `bit_size` bits, as big-endian bytes.
#[verifier::external_body]
fn random_biguint_be(bit_size: usize) -> (r: Vec<u8>)
    ensures
        be_value(r@) < pow2(bit_size as nat),
        is_minimal_be(r@),
{
    let mut rng = rand::thread_rng();
    rng.gen_biguint(bit_size).to_bytes_be()
}

/// Relies on `BigUint::from_slice`, which reads little-endian base 2^32
/// digits, and on `to_bytes_be`.
#[verifier::external_body]
fn biguint_from_digits(digits: &[u32]) -> (r: Vec<u8>)
    ensures
        be_value(r@) == digits_value(digits@),
        is_minimal_be(r@),
{
    BigUint::from_slice(digits).to_bytes_be()
}

/// Relies on `FromPrimitive::from_usize` for `BigUint`, which succeeds for
/// every `usize`, and on `to_bytes_be`.
#[verifier::external_body]
fn biguint_from_usize(n: usize) -> (r: Vec<u8>)
    ensures
        be_value(r@) == n,
        is_minimal_be(r@),
{
    BigUint::from_usize(n).unwrap().to_bytes_be()
}

/// Relies on `BigUint::bits`: the fewest bits that express the number.
#[verifier::external_body]
fn biguint_bits(v: &Vec<u8>) -> (r: usize)
    ensures
        r == bit_length(be_value(v@)),
{
    BigUint::from_bytes_be(v).bits()
}

proof fn lemma_digits_positive(ds: Seq<u32>)
    requires
        ds.len() >= 1,
        ds.last() != 0,
    ensures
        digits_value(ds) >= 1,
        ds.len() >= 2 ==> digits_value(ds) > 1,
    decreases ds.len(),
{
    if ds.len() >= 2 {
        let rest = ds.drop_first();
        assert(rest.last() == ds.last());
        lemma_digits_positive(rest);
        let v = digits_value(rest);
        assert(0x1_0000_0000 * v >= 0x1_0000_0000) by (nonlinear_arith)
            requires
                v >= 1,
        ;
    } else {
        assert(ds.drop_first() =~= Seq::<u32>::empty());
    }
}

proof fn lemma_be_upper(bs: Seq<u8>)
    ensures
        be_value(bs) < pow(256, bs.len()),
    decreases bs.len(),
{
    reveal(pow);
    if bs.len() == 0 {
        lemma_pow0(256);
    } else {
        let pre = bs.drop_last();
        lemma_be_upper(pre);
        let v = be_value(pre);
        let p = pow(256, pre.len());
        let x = bs.last() as int;
        assert(be_value(bs) == v * 256 + x);
        assert(pow(256, bs.len()) == 256 * p);
        assert(v * 256 + x < p * 256) by (nonlinear_arith)
            requires
                v < p,
                0 <= x < 256,
        ;
    }
}

proof fn lemma_be_lower(bs: Seq<u8>)
    requires
        is_minimal_be(bs),
        bs.len() > 1,
    ensures
        be_value(bs) >= pow(256, (bs.len() - 1) as nat),
    decreases bs.len(),
{
    reveal(pow);
    let pre = bs.drop_last();
    let v = be_value(pre);
    if bs.len() == 2 {
        assert(pre.drop_last() =~= Seq::<u8>::empty());
        assert(be_value(pre.drop_last()) == 0);
        assert(v == pre[0] as nat);
        assert(be_value(bs) == v * 256 + bs.last() as nat);
        assert(pre[0] == bs[0]);
        lemma_pow1(256);
    } else {
        assert(pre[0] == bs[0]);
        lemma_be_lower(pre);
        let p = pow(256, (pre.len() - 1) as nat);
        assert(be_value(bs) == v * 256 + bs.last() as nat);
        assert(pow(256, (bs.len() - 1) as nat) == 256 * p);
        assert(v * 256 >= p * 256) by (nonlinear_arith)
            requires
                v >= p,
        ;
    }
}

/// A number below `256^n` (with `n >= 1`) takes at most `n` bytes in its
/// minimal big-endian encoding.
proof fn lemma_minimal_len(bs: Seq<u8>, n: nat)
    requires
        is_minimal_be(bs),
        n >= 1,
        be_value(bs) < pow(256, n),
    ensures
        bs.len() <= n,
{
    if bs.len() > 1 {
        lemma_be_lower(bs);
        lemma_pow_strictly_increases_converse(256, (bs.len() - 1) as nat, n);
    }
}

proof fn lemma_digits_upper(ds: Seq<u32>)
    ensures
        digits_value(ds) < pow(256, 4 * ds.len()),
    decreases ds.len(),
{
    reveal(pow);
    if ds.len() == 0 {
        lemma_pow0(256);
    } else {
        let rest = ds.drop_first();
        lemma_digits_upper(rest);
        lemma_pow_adds(256, 4, 4 * rest.len());
        assert(4 * ds.len() == 4 + 4 * rest.len());
        lemma_pow1(256);
        assert(pow(256, 2) == 256 * pow(256, 1));
        assert(pow(256, 3) == 256 * pow(256, 2));
        assert(pow(256, 4) == 256 * pow(256, 3));
        assert(pow(256, 4) == 0x1_0000_0000);
        let v = digits_value(rest);
        let p = pow(256, 4 * rest.len());
        let d = ds[0] as int;
        assert(d + 0x1_0000_0000 * v < 0x1_0000_0000 * p) by (nonlinear_arith)
            requires
                v < p,
                0 <= d < 0x1_0000_0000,
        ;
    }
}

/// Held as the minimal big-endian encoding of the number.
pub struct PublicKey(Vec<u8>);

impl PublicKey {
    #[verifier::type_invariant]
    closed spec fn minimal(self) -> bool {
        is_minimal_be(self.0@)
    }

    /// The key's big-endian bytes.
    pub closed spec fn bytes(&self) -> Seq<u8> {
        self.0@
    }

    pub open spec fn value(&self) -> nat {
        be_value(self.bytes())
    }

    /// The minimal big-endian encoding of the key.
    pub fn into_vec(self) -> (r: Vec<u8>)
        ensures
            r@ == self.bytes(),
            be_value(r@) == self.value(),
            is_minimal_be(r@),
    {
        proof {
            use_type_invariant(&self);
        }
        self.0
    }
}

/// Held as the minimal big-endian encoding of the number.
pub struct PrivateKey(Vec<u8>);

impl PrivateKey {
    #[verifier::type_invariant]
    closed spec fn minimal(self) -> bool {
        is_minimal_be(self.0@)
    }

    /// The key's big-endian bytes.
    pub closed spec fn bytes(&self) -> Seq<u8> {
        self.0@
    }

    pub open spec fn value(&self) -> nat {
        be_value(self.bytes())
    }

    /// A random exponent of at most `exponent_size` bits.
    pub fn new(exponent_size: usize) -> (r: Self)
        ensures
            r.value() < pow2(exponent_size as nat),
    {
        let exponent = random_biguint_be(exponent_size);
        PrivateKey(exponent)
    }

    /// Diffie-Hellman modular exponentiation.
    /// s = g^x mod p
    pub fn compute_public_key(&self, generator: &Vec<u8>, modulus: &Vec<u8>) -> (r: PublicKey)
        requires
            be_value(modulus@) > 0,
        ensures
            r.value() == mod_exp(be_value(generator@), self.value(), be_value(modulus@)),
    {
        let public_key = modpow_be(generator, &self.0, modulus);
        PublicKey(public_key)
    }

    /// The minimal big-endian encoding of the key.
    pub fn into_vec(self) -> (r: Vec<u8>)
        ensures
            r@ == self.bytes(),
            be_value(r@) == self.value(),
            is_minimal_be(r@),
    {
        proof {
            use_type_invariant(&self);
        }
        self.0
    }
}

/// Classic DH
pub struct DiffieHellman {
    pub private_key: PrivateKey,
    pub public_key: PublicKey,
}

impl DiffieHellman {
    /// A key pair in the well-known group `G`, with an exponent of at most
    /// `G::EXPONENT_SIZE / 8` bits.
    pub fn group<G>() -> (r: Self) where G: DiffieHellmanGroup
        ensures
            r.private_key.value() < pow2((G::EXPONENT_SIZE / 8) as nat),
            r.public_key.value() == mod_exp(
                G::GENERATOR as nat,
                r.private_key.value(),
                digits_value(G::modulus_digits()),
            ),
            r.public_key.bytes().len() <= 4 * G::modulus_digits().len(),
    {
        let private_key = PrivateKey::new(G::EXPONENT_SIZE / 8);

        let generator = biguint_from_usize(G::GENERATOR);
        let digits = G::modulus();
        let modulus = biguint_from_digits(digits);
        proof {
            lemma_digits_positive(digits@);
        }

        let public_key = private_key.compute_public_key(&generator, &modulus);
        proof {
            use_type_invariant(&public_key);
            lemma_digits_upper(digits@);
            lemma_minimal_len(public_key.bytes(), 4 * digits@.len());
        }

        DiffieHellman { private_key, public_key }
    }

    /// A key pair modulo `prime` (big-endian bytes), with an exponent of at
    /// most as many bits as the prime has.
    pub fn new(prime: Vec<u8>, generator: usize) -> (r: Self)
        requires
            be_value(prime@) > 0,
        ensures
            r.private_key.value() < pow2(bit_length(be_value(prime@))),
            r.public_key.value() == mod_exp(
                generator as nat,
                r.private_key.value(),
                be_value(prime@),
            ),
            r.public_key.bytes().len() <= prime@.len(),
    {
        let private_key = PrivateKey::new(biguint_bits(&prime));

        let generator = biguint_from_usize(generator);
        let public_key = private_key.compute_public_key(&generator, &prime);
        proof {
            use_type_invariant(&public_key);
            lemma_be_upper(prime@);
            if prime@.len() == 0 {
                assert(be_value(prime@) == 0);
            }
            lemma_minimal_len(public_key.bytes(), prime@.len());
        }

        DiffieHellman { private_key, public_key }
    }
}

/// Well-known modp groups
//
/// More Modular Exponential (MODP) Diffie-Hellman groups for Internet Key Exchange (IKE)
/// https://www.rfc-editor.org/rfc/rfc3526
///
/// Insecure groups `modp1` and `modp2` from https://www.rfc-editor.org/rfc/rfc2409.txt
/// are deprecated in Node.js. We don't support them.
pub trait DiffieHellmanGroup {
    const GENERATOR: usize;
    /// Size of the exponent in bits
    const EXPONENT_SIZE: usize;

    /// The group's prime, in little-endian base 2^32 digits.
    spec fn modulus_digits() -> Seq<u32>;

    /// The group's prime, in little-endian base 2^32 digits; its top digit is
    /// not zero.
    fn modulus() -> (r: &'static [u32])
        ensures
            r@ == Self::modulus_digits(),
            r@.len() >= 2,
            r@.last() != 0,
    ;
}

/// The prime of RFC 3526's 1536-bit group, least significant 32-bit word
/// first, as `BigUint::from_slice` reads it.
pub const MODP1536_MODULUS: [u32; 48] = [
    0xFFFFFFFF, 0xFFFFFFFF, 0xCA237327, 0xF1746C08, 0x4ABC9804, 0x670C354E,
    0x7096966D, 0x9ED52907, 0x208552BB, 0x1C62F356, 0xDCA3AD96, 0x83655D23,
    0xFD24CF5F, 0x69163FA8, 0x1C55D39A, 0x98DA4836, 0xA163BF05, 0xC2007CB8,
    0xECE45B3D, 0x49286651, 0x7C4B1FE6, 0xAE9F2411, 0x5A899FA5, 0xEE386BFB,
    0xF406B7ED, 0x0BFF5CB6, 0xA637ED6B, 0xF44C42E9, 0x625E7EC6, 0xE485B576,
    0x6D51C245, 0x4FE1356D, 0xF25F1437, 0x302B0A6D, 0xCD3A431B, 0xEF9519B3,
    0x8E3404DD, 0x514A0879, 0x3B139B22, 0x020BBEA6, 0x8A67CC74, 0x29024E08,
    0x80DC1CD1, 0xC4C6628B, 0x2168C234, 0xC90FDAA2, 0xFFFFFFFF, 0xFFFFFFFF,
];

/// 1536-bit MODP Group
/// https://www.rfc-editor.org/rfc/rfc3526#section-2
pub struct Modp1536;

impl DiffieHellmanGroup for Modp1536 {
    const GENERATOR: usize = 2;
    const EXPONENT_SIZE: usize = 192;

    open spec fn modulus_digits() -> Seq<u32> {
        MODP1536_MODULUS@
    }

    fn modulus() -> (r: &'static [u32]) {
        &MODP1536_MODULUS
    }
}

/// The prime of RFC 3526's 2048-bit group, least significant 32-bit word
/// first, as `BigUint::from_slice` reads it.
pub const MODP2048_MODULUS: [u32; 64] = [
    0xFFFFFFFF, 0xFFFFFFFF, 0x8AACAA68, 0x15728E5A, 0x98FA0510, 0x15D22618,
    0xEA956AE5, 0x3995497C, 0x95581718, 0xDE2BCBF6, 0x6F4C52C9, 0xB5C55DF0,
    0xEC07A28F, 0x9B2783A2, 0x180E8603, 0xE39E772C, 0x2E36CE3B, 0x32905E46,
    0xCA18217C, 0xF1746C08, 0x4ABC9804, 0x670C354E, 0x7096966D, 0x9ED52907,
    0x208552BB, 0x1C62F356, 0xDCA3AD96, 0x83655D23, 0xFD24CF5F, 0x69163FA8,
    0x1C55D39A, 0x98DA4836, 0xA163BF05, 0xC2007CB8, 0xECE45B3D, 0x49286651,
    0x7C4B1FE6, 0xAE9F2411, 0x5A899FA5, 0xEE386BFB, 0xF406B7ED, 0x0BFF5CB6,
    0xA637ED6B, 0xF44C42E9, 0x625E7EC6, 0xE485B576, 0x6D51C245, 0x4FE1356D,
    0xF25F1437, 0x302B0A6D, 0xCD3A431B, 0xEF9519B3, 0x8E3404DD, 0x514A0879,
    0x3B139B22, 0x020BBEA6, 0x8A67CC74, 0x29024E08, 0x80DC1CD1, 0xC4C6628B,
    0x2168C234, 0xC90FDAA2, 0xFFFFFFFF, 0xFFFFFFFF,
];

/// 2048-bit MODP Group
/// https://www.rfc-editor.org/rfc/rfc3526#section-3
pub struct Modp2048;

impl DiffieHellmanGroup for Modp2048 {
    const GENERATOR: usize = 2;
    const EXPONENT_SIZE: usize = 256;

    open spec fn modulus_digits() -> Seq<u32> {
        MODP2048_MODULUS@
    }

    fn modulus() -> (r: &'static [u32]) {
        &MODP2048_MODULUS
    }
}

/// The prime of RFC 3526's 3072-bit group, least significant 32-bit word
/// first, as `BigUint::from_slice` reads it.
pub const MODP3072_MODULUS: [u32; 96] = [
    0xFFFFFFFF, 0xFFFFFFFF, 0xA93AD2CA, 0x4B82D120, 0xE0FD108E, 0x43DB5BFC,
    0x74E5AB31, 0x08E24FA0, 0xBAD946E2, 0x770988C0, 0x7A615D6C, 0xBBE11757,
    0x177B200C, 0x521F2B18, 0x3EC86A64, 0xD8760273, 0xD98A0864, 0xF12FFA06,
    0x1AD2EE6B, 0xCEE3D226, 0x4A25619D, 0x1E8C94E0, 0xDB0933D7, 0xABF5AE8C,
    0xA6E1E4C7, 0xB3970F85, 0x5D060C7D, 0x8AEA7157, 0x58DBEF0A, 0xECFB8504,
    0xDF1CBA64, 0xA85521AB, 0x04507A33, 0xAD33170D, 0x8AAAC42D, 0x15728E5A,
    0x98FA0510, 0x15D22618, 0xEA956AE5, 0x3995497C, 0x95581718, 0xDE2BCBF6,
    0x6F4C52C9, 0xB5C55DF0, 0xEC07A28F, 0x9B2783A2, 0x180E8603, 0xE39E772C,
    0x2E36CE3B, 0x32905E46, 0xCA18217C, 0xF1746C08, 0x4ABC9804, 0x670C354E,
    0x7096966D, 0x9ED52907, 0x208552BB, 0x1C62F356, 0xDCA3AD96, 0x83655D23,
    0xFD24CF5F, 0x69163FA8, 0x1C55D39A, 0x98DA4836, 0xA163BF05, 0xC2007CB8,
    0xECE45B3D, 0x49286651, 0x7C4B1FE6, 0xAE9F2411, 0x5A899FA5, 0xEE386BFB,
    0xF406B7ED, 0x0BFF5CB6, 0xA637ED6B, 0xF44C42E9, 0x625E7EC6, 0xE485B576,
    0x6D51C245, 0x4FE1356D, 0xF25F1437, 0x302B0A6D, 0xCD3A431B, 0xEF9519B3,
    0x8E3404DD, 0x514A0879, 0x3B139B22, 0x020BBEA6, 0x8A67CC74, 0x29024E08,
    0x80DC1CD1, 0xC4C6628B, 0x2168C234, 0xC90FDAA2, 0xFFFFFFFF, 0xFFFFFFFF,
];

/// 3072-bit MODP Group
/// https://www.rfc-editor.org/rfc/rfc3526#section-4
pub struct Modp3072;

impl DiffieHellmanGroup for Modp3072 {
    const GENERATOR: usize = 2;
    const EXPONENT_SIZE: usize = 384;

    open spec fn modulus_digits() -> Seq<u32> {
        MODP3072_MODULUS@
    }

    fn modulus() -> (r: &'static [u32]) {
        &MODP3072_MODULUS
    }
}

/// The prime of RFC 3526's 4096-bit group, least significant 32-bit word
/// first, as `BigUint::from_slice` reads it.
pub const MODP4096_MODULUS: [u32; 128] = [
    0xFFFFFFFF, 0xFFFFFFFF, 0x34063199, 0x4DF435C9, 0x90A6C08F, 0x86FFB7DC,
    0x8D8FDDC1, 0x93B4EA98, 0xD5B05AA9, 0xD0069127, 0x2170481C, 0xB81BDD76,
    0xCEE2D7AF, 0x1F612970, 0x515BE7ED, 0x233BA186, 0xA090C3A2, 0x99B2964F,
    0x4E6BC05D, 0x287C5947, 0x1FBECAA6, 0x2E8EFC14, 0x04DE8EF9, 0xDBBBC2DB,
    0x2AD44CE8, 0x2583E9CA, 0xB6150BDA, 0x1A946834, 0x6AF4E23C, 0x99C32718,
    0xBDBA5B26, 0x88719A10, 0xA787E6D7, 0x1A723C12, 0xA9210801, 0x4B82D120,
    0xE0FD108E, 0x43DB5BFC, 0x74E5AB31, 0x08E24FA0, 0xBAD946E2, 0x770988C0,
    0x7A615D6C, 0xBBE11757, 0x177B200C, 0x521F2B18, 0x3EC86A64, 0xD8760273,
    0xD98A0864, 0xF12FFA06, 0x1AD2EE6B, 0xCEE3D226, 0x4A25619D, 0x1E8C94E0,
    0xDB0933D7, 0xABF5AE8C, 0xA6E1E4C7, 0xB3970F85, 0x5D060C7D, 0x8AEA7157,
    0x58DBEF0A, 0xECFB8504, 0xDF1CBA64, 0xA85521AB, 0x04507A33, 0xAD33170D,
    0x8AAAC42D, 0x15728E5A, 0x98FA0510, 0x15D22618, 0xEA956AE5, 0x3995497C,
    0x95581718, 0xDE2BCBF6, 0x6F4C52C9, 0xB5C55DF0, 0xEC07A28F, 0x9B2783A2,
    0x180E8603, 0xE39E772C, 0x2E36CE3B, 0x32905E46, 0xCA18217C, 0xF1746C08,
    0x4ABC9804, 0x670C354E, 0x7096966D, 0x9ED52907, 0x208552BB, 0x1C62F356,
    0xDCA3AD96, 0x83655D23, 0xFD24CF5F, 0x69163FA8, 0x1C55D39A, 0x98DA4836,
    0xA163BF05, 0xC2007CB8, 0xECE45B3D, 0x49286651, 0x7C4B1FE6, 0xAE9F2411,
    0x5A899FA5, 0xEE386BFB, 0xF406B7ED, 0x0BFF5CB6, 0xA637ED6B, 0xF44C42E9,
    0x625E7EC6, 0xE485B576, 0x6D51C245, 0x4FE1356D, 0xF25F1437, 0x302B0A6D,
    0xCD3A431B, 0xEF9519B3, 0x8E3404DD, 0x514A0879, 0x3B139B22, 0x020BBEA6,
    0x8A67CC74, 0x29024E08, 0x80DC1CD1, 0xC4C6628B, 0x2168C234, 0xC90FDAA2,
    0xFFFFFFFF, 0xFFFFFFFF,
];

/// 4096-bit MODP Group
/// https://www.rfc-editor.org/rfc/rfc3526#section-5
pub struct Modp4096;

impl DiffieHellmanGroup for Modp4096 {
    const GENERATOR: usize = 2;
    const EXPONENT_SIZE: usize = 512;

    open spec fn modulus_digits() -> Seq<u32> {
        MODP4096_MODULUS@
    }

    fn modulus() -> (r: &'static [u32]) {
        &MODP4096_MODULUS
    }
}

/// The prime of RFC 3526's 6144-bit group, least significant 32-bit word
/// first, as `BigUint::from_slice` reads it.
pub const MODP6144_MODULUS: [u32; 192] = [
    0xFFFFFFFF, 0xFFFFFFFF, 0x6DCC4024, 0xE694F91E, 0x0B7474D6, 0x12BF2D5B,
    0x3F4860EE, 0x043E8F66, 0x6E3C0468, 0x387FE8D7, 0x2EF29632, 0xDA56C9EC,
    0xA313D55C, 0xEB19CCB1, 0x8A1FBFF0, 0xF550AA3D, 0xB7C5DA76, 0x06A1D58B,
    0xF29BE328, 0xA79715EE, 0x0F8037E0, 0x14CC5ED2, 0xBF48E1D8, 0xCC8F6D7E,
    0x2B4154AA, 0x4BD407B2, 0xFF585AC5, 0x0F1D45B7, 0x36CC88BE, 0x23A97A7E,
    0xBEC7E8F3, 0x59E7C97F, 0x900B1C9E, 0xB5A84031, 0x46980C82, 0xD55E702F,
    0x6E74FEF6, 0xF482D7CE, 0xD1721D03, 0xF032EA15, 0xC64B92EC, 0x5983CA01,
    0x378CD2BF, 0x6FB8F401, 0x2BD7AF42, 0x33205151, 0xE6CC254B, 0xDB7F1447,
    0xCED4BB1B, 0x44CE6CBA, 0xCF9B14ED, 0xDA3EDBEB, 0x865A8918, 0x179727B0,
    0x9027D831, 0xB06A53ED, 0x413001AE, 0xE5DB382F, 0xAD9E530E, 0xF8FF9406,
    0x3DBA37BD, 0xC9751E76, 0x602646DE, 0xC1D4DCB2, 0xD27C7026, 0x36C3FAB4,
    0x34028492, 0x4DF435C9, 0x90A6C08F, 0x86FFB7DC, 0x8D8FDDC1, 0x93B4EA98,
    0xD5B05AA9, 0xD0069127, 0x2170481C, 0xB81BDD76, 0xCEE2D7AF, 0x1F612970,
    0x515BE7ED, 0x233BA186, 0xA090C3A2, 0x99B2964F, 0x4E6BC05D, 0x287C5947,
    0x1FBECAA6, 0x2E8EFC14, 0x04DE8EF9, 0xDBBBC2DB, 0x2AD44CE8, 0x2583E9CA,
    0xB6150BDA, 0x1A946834, 0x6AF4E23C, 0x99C32718, 0xBDBA5B26, 0x88719A10,
    0xA787E6D7, 0x1A723C12, 0xA9210801, 0x4B82D120, 0xE0FD108E, 0x43DB5BFC,
    0x74E5AB31, 0x08E24FA0, 0xBAD946E2, 0x770988C0, 0x7A615D6C, 0xBBE11757,
    0x177B200C, 0x521F2B18, 0x3EC86A64, 0xD8760273, 0xD98A0864, 0xF12FFA06,
    0x1AD2EE6B, 0xCEE3D226, 0x4A25619D, 0x1E8C94E0, 0xDB0933D7, 0xABF5AE8C,
    0xA6E1E4C7, 0xB3970F85, 0x5D060C7D, 0x8AEA7157, 0x58DBEF0A, 0xECFB8504,
    0xDF1CBA64, 0xA85521AB, 0x04507A33, 0xAD33170D, 0x8AAAC42D, 0x15728E5A,
    0x98FA0510, 0x15D22618, 0xEA956AE5, 0x3995497C, 0x95581718, 0xDE2BCBF6,
    0x6F4C52C9, 0xB5C55DF0, 0xEC07A28F, 0x9B2783A2, 0x180E8603, 0xE39E772C,
    0x2E36CE3B, 0x32905E46, 0xCA18217C, 0xF1746C08, 0x4ABC9804, 0x670C354E,
    0x7096966D, 0x9ED52907, 0x208552BB, 0x1C62F356, 0xDCA3AD96, 0x83655D23,
    0xFD24CF5F, 0x69163FA8, 0x1C55D39A, 0x98DA4836, 0xA163BF05, 0xC2007CB8,
    0xECE45B3D, 0x49286651, 0x7C4B1FE6, 0xAE9F2411, 0x5A899FA5, 0xEE386BFB,
    0xF406B7ED, 0x0BFF5CB6, 0xA637ED6B, 0xF44C42E9, 0x625E7EC6, 0xE485B576,
    0x6D51C245, 0x4FE1356D, 0xF25F1437, 0x302B0A6D, 0xCD3A431B, 0xEF9519B3,
    0x8E3404DD, 0x514A0879, 0x3B139B22, 0x020BBEA6, 0x8A67CC74, 0x29024E08,
    0x80DC1CD1, 0xC4C6628B, 0x2168C234, 0xC90FDAA2, 0xFFFFFFFF, 0xFFFFFFFF,
];

/// 6144-bit MODP Group
/// https://www.rfc-editor.org/rfc/rfc3526#section-6
pub struct Modp6144;

impl DiffieHellmanGroup for Modp6144 {
    const GENERATOR: usize = 2;
    const EXPONENT_SIZE: usize = 768;

    open spec fn modulus_digits() -> Seq<u32> {
        MODP6144_MODULUS@
    }

    fn modulus() -> (r: &'static [u32]) {
        &MODP6144_MODULUS
    }
}

/// The prime of RFC 3526's 8192-bit group, least significant 32-bit word
/// first, as `BigUint::from_slice` reads it.
pub const MODP8192_MODULUS: [u32; 256] = [
    0xFFFFFFFF, 0xFFFFFFFF, 0x98EDD3DF, 0x60C980DD, 0x80B96E71, 0xC81F56E8,
    0x765694DF, 0x9E3050E2, 0x5677E9AA, 0x9558E447, 0xFC026E47, 0xC9190DA6,
    0xD5EE382B, 0x889A002E, 0x481C6CD7, 0x4009438B, 0xEB879F92, 0x359046F4,
    0x1ECFA268, 0xFAF36BC3, 0x7EE74D73, 0xB1D510BD, 0x5DED7EA1, 0xF9AB4819,
    0x0846851D, 0x64F31CC5, 0xA0255DC1, 0x4597E899, 0x74AB6A36, 0xDF310EE0,
    0x3F44F82D, 0x6D2A13F8, 0xB3A278A6, 0x062B3CF5, 0xED5BDD3A, 0x79683303,
    0xA2C087E8, 0xFA9D4B7F, 0x2F8385DD, 0x4BCBC886, 0x6CEA306B, 0x3473FC64,
    0x1A23F0C7, 0x13EB57A8, 0xA4037C07, 0x22222E04, 0xFC848AD9, 0xE3FDB8BE,
    0xE39D652D, 0x238F16CB, 0x2BF1C978, 0x3423B474, 0x5AE4F568, 0x3AAB639C,
    0x6BA42466, 0x2576F693, 0x8AFC47ED, 0x741FA7BF, 0x8D9DD300, 0x3BC832B6,
    0x73B931BA, 0xD8BEC4D0, 0xA932DF8C, 0x38777CB6, 0x12FEE5E4, 0x74A3926F,
    0x6DBE1159, 0xE694F91E, 0x0B7474D6, 0x12BF2D5B, 0x3F4860EE, 0x043E8F66,
    0x6E3C0468, 0x387FE8D7, 0x2EF29632, 0xDA56C9EC, 0xA313D55C, 0xEB19CCB1,
    0x8A1FBFF0, 0xF550AA3D, 0xB7C5DA76, 0x06A1D58B, 0xF29BE328, 0xA79715EE,
    0x0F8037E0, 0x14CC5ED2, 0xBF48E1D8, 0xCC8F6D7E, 0x2B4154AA, 0x4BD407B2,
    0xFF585AC5, 0x0F1D45B7, 0x36CC88BE, 0x23A97A7E, 0xBEC7E8F3, 0x59E7C97F,
    0x900B1C9E, 0xB5A84031, 0x46980C82, 0xD55E702F, 0x6E74FEF6, 0xF482D7CE,
    0xD1721D03, 0xF032EA15, 0xC64B92EC, 0x5983CA01, 0x378CD2BF, 0x6FB8F401,
    0x2BD7AF42, 0x33205151, 0xE6CC254B, 0xDB7F1447, 0xCED4BB1B, 0x44CE6CBA,
    0xCF9B14ED, 0xDA3EDBEB, 0x865A8918, 0x179727B0, 0x9027D831, 0xB06A53ED,
    0x413001AE, 0xE5DB382F, 0xAD9E530E, 0xF8FF9406, 0x3DBA37BD, 0xC9751E76,
    0x602646DE, 0xC1D4DCB2, 0xD27C7026, 0x36C3FAB4, 0x34028492, 0x4DF435C9,
    0x90A6C08F, 0x86FFB7DC, 0x8D8FDDC1, 0x93B4EA98, 0xD5B05AA9, 0xD0069127,
    0x2170481C, 0xB81BDD76, 0xCEE2D7AF, 0x1F612970, 0x515BE7ED, 0x233BA186,
    0xA090C3A2, 0x99B2964F, 0x4E6BC05D, 0x287C5947, 0x1FBECAA6, 0x2E8EFC14,
    0x04DE8EF9, 0xDBBBC2DB, 0x2AD44CE8, 0x2583E9CA, 0xB6150BDA, 0x1A946834,
    0x6AF4E23C, 0x99C32718, 0xBDBA5B26, 0x88719A10, 0xA787E6D7, 0x1A723C12,
    0xA9210801, 0x4B82D120, 0xE0FD108E, 0x43DB5BFC, 0x74E5AB31, 0x08E24FA0,
    0xBAD946E2, 0x770988C0, 0x7A615D6C, 0xBBE11757, 0x177B200C, 0x521F2B18,
    0x3EC86A64, 0xD8760273, 0xD98A0864, 0xF12FFA06, 0x1AD2EE6B, 0xCEE3D226,
    0x4A25619D, 0x1E8C94E0, 0xDB0933D7, 0xABF5AE8C, 0xA6E1E4C7, 0xB3970F85,
    0x5D060C7D, 0x8AEA7157, 0x58DBEF0A, 0xECFB8504, 0xDF1CBA64, 0xA85521AB,
    0x04507A33, 0xAD33170D, 0x8AAAC42D, 0x15728E5A, 0x98FA0510, 0x15D22618,
    0xEA956AE5, 0x3995497C, 0x95581718, 0xDE2BCBF6, 0x6F4C52C9, 0xB5C55DF0,
    0xEC07A28F, 0x9B2783A2, 0x180E8603, 0xE39E772C, 0x2E36CE3B, 0x32905E46,
    0xCA18217C, 0xF1746C08, 0x4ABC9804, 0x670C354E, 0x7096966D, 0x9ED52907,
    0x208552BB, 0x1C62F356, 0xDCA3AD96, 0x83655D23, 0xFD24CF5F, 0x69163FA8,
    0x1C55D39A, 0x98DA4836, 0xA163BF05, 0xC2007CB8, 0xECE45B3D, 0x49286651,
    0x7C4B1FE6, 0xAE9F2411, 0x5A899FA5, 0xEE386BFB, 0xF406B7ED, 0x0BFF5CB6,
    0xA637ED6B, 0xF44C42E9, 0x625E7EC6, 0xE485B576, 0x6D51C245, 0x4FE1356D,
    0xF25F1437, 0x302B0A6D, 0xCD3A431B, 0xEF9519B3, 0x8E3404DD, 0x514A0879,
    0x3B139B22, 0x020BBEA6, 0x8A67CC74, 0x29024E08, 0x80DC1CD1, 0xC4C6628B,
    0x2168C234, 0xC90FDAA2, 0xFFFFFFFF, 0xFFFFFFFF,
];

/// 8192-bit MODP Group
/// https://www.rfc-editor.org/rfc/rfc3526#section-7
pub struct Modp8192;

impl DiffieHellmanGroup for Modp8192 {
    const GENERATOR: usize = 2;
    const EXPONENT_SIZE: usize = 1024;

    open spec fn modulus_digits() -> Seq<u32> {
        MODP8192_MODULUS@
    }

    fn modulus() -> (r: &'static [u32]) {
        &MODP8192_MODULUS
    }
}

} // verus!
