use num_bigint_dig::BigUint;
use worker_core::dh::{
    DiffieHellman, DiffieHellmanGroup, Modp1536, Modp2048, Modp3072, Modp4096, Modp6144,
    Modp8192, PrivateKey,
};

fn check_group<G: DiffieHellmanGroup>(digits: usize, exponent_bits: usize) {
    assert_eq!(G::GENERATOR, 2);
    assert_eq!(G::EXPONENT_SIZE, exponent_bits);
    assert_eq!(G::modulus().len(), digits);
    let dh = DiffieHellman::group::<G>();
    let x = BigUint::from_bytes_be(&dh.private_key.into_vec());
    let y_bytes = dh.public_key.into_vec();
    assert!(y_bytes.len() <= 4 * digits);
    assert!(y_bytes.len() == 1 || y_bytes[0] != 0);
    let y = BigUint::from_bytes_be(&y_bytes);
    assert!(x.bits() <= exponent_bits / 8);
    let p = BigUint::from_slice(G::modulus());
    assert_eq!(y, BigUint::from(2u32).modpow(&x, &p));
}

#[test]
fn modp_groups_compute_public_keys() {
    check_group::<Modp1536>(48, 192);
    check_group::<Modp2048>(64, 256);
    check_group::<Modp3072>(96, 384);
    check_group::<Modp4096>(128, 512);
    check_group::<Modp6144>(192, 768);
    check_group::<Modp8192>(256, 1024);
}

#[test]
fn public_key_is_generator_power_mod_prime() {
    for _ in 0..20 {
        let dh = DiffieHellman::new(vec![23], 5);
        let x = dh.private_key.into_vec();
        let y = dh.public_key.into_vec();
        assert_eq!(x.len(), 1);
        assert!(x[0] < 32);
        let mut expect: u64 = 1;
        for _ in 0..x[0] {
            expect = expect * 5 % 23;
        }
        assert_eq!(y, vec![expect as u8]);
    }
}

#[test]
fn compute_public_key_exact_value() {
    let k = PrivateKey::new(0);
    let pk = k.compute_public_key(&vec![3], &vec![7]);
    assert_eq!(pk.into_vec(), vec![1]);
}

#[test]
fn private_key_fits_its_size() {
    for _ in 0..20 {
        let k = BigUint::from_bytes_be(&PrivateKey::new(12).into_vec());
        assert!(k.bits() <= 12);
    }
}

#[test]
fn group_moduli_are_the_rfc_primes() {
    let p = BigUint::from_slice(Modp1536::modulus()).to_bytes_be();
    assert_eq!(p.len(), 192);
    assert_eq!(&p[..12], &[0xFF, 0xFF, 0xFF, 0xFF, 0xFF, 0xFF, 0xFF, 0xFF, 0xC9, 0x0F, 0xDA, 0xA2]);
    assert_eq!(&p[188..], &[0xFF, 0xFF, 0xFF, 0xFF]);
    let q = BigUint::from_slice(Modp2048::modulus()).to_bytes_be();
    assert_eq!(q.len(), 256);
    assert_eq!(&q[..12], &[0xFF, 0xFF, 0xFF, 0xFF, 0xFF, 0xFF, 0xFF, 0xFF, 0xC9, 0x0F, 0xDA, 0xA2]);
}

#[test]
fn modulus_one_gives_zero() {
    let k = PrivateKey::new(8);
    assert_eq!(k.compute_public_key(&vec![5], &vec![1]).into_vec(), vec![0]);
}

#[test]
fn keys_are_minimal_big_endian() {
    let k = PrivateKey::new(0);
    assert_eq!(k.into_vec(), vec![0]);
    let pk = PrivateKey::new(0).compute_public_key(&vec![7], &vec![0x01, 0x00, 0x01]);
    assert_eq!(pk.into_vec(), vec![1]);
    let big = DiffieHellman::new(vec![0, 0, 1, 1], 256);
    let y = big.public_key.into_vec();
    assert!(y.len() == 1 || y[0] != 0);
}
