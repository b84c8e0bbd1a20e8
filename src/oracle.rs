//! Deterministic address derivation: candidate salt construction, the
//! factory's salt-guarding transform, and the CREATE2 address hash.

use vstd::prelude::*;

verus! {

/// Keccak-256 digest of a byte string.
pub uninterp spec fn keccak_of(data: Seq<u8>) -> Seq<u8>;

/// Relies on `ethers_core::utils::keccak256`: the Keccak-256 digest of the bytes.
#[verifier::external_body]
fn keccak(data: &Vec<u8>) -> (r: [u8; 32])
    ensures
        r@ == keccak_of(data@),
{
    ethers_core::utils::keccak256(data)
}

/// ABI encoding of the pair (address, bytes32): the address left-padded with
/// twelve zero bytes to one word, followed by the 32-byte word itself.
pub open spec fn address_word_encoding(addr: Seq<u8>, word: Seq<u8>) -> Seq<u8> {
    Seq::new(12, |i: int| 0u8) + addr + word
}

/// Relies on `ethers_core::abi::encode` of `[Token::Address, Token::FixedBytes]`:
/// an address is one zero-left-padded word, 32 fixed bytes are one word as is.
#[verifier::external_body]
fn abi_encode_address_word(addr: &[u8; 20], word: &[u8; 32]) -> (r: Vec<u8>)
    ensures
        r@ == address_word_encoding(addr@, word@),
{
    ethers_core::abi::encode(
        &[
            ethers_core::abi::Token::Address(ethers_core::types::Address::from(*addr)),
            ethers_core::abi::Token::FixedBytes(word.to_vec()),
        ],
    )
}

/// The CreateX factory address, 0xba5Ed099633D3B313e4D5F7bdc1305d3c28ba5Ed.
pub open spec fn create_x_factory_spec() -> Seq<u8> {
    seq![
        0xbau8, 0x5eu8, 0xd0u8, 0x99u8, 0x63u8, 0x3du8, 0x3bu8, 0x31u8, 0x3eu8, 0x4du8,
        0x5fu8, 0x7bu8, 0xdcu8, 0x13u8, 0x05u8, 0xd3u8, 0xc2u8, 0x8bu8, 0xa5u8, 0xedu8,
    ]
}

/// A candidate salt: the deployer's 20 bytes, a zero guard flag, then 11 bytes
/// of search entropy.
pub open spec fn candidate_salt_spec(deployer: Seq<u8>, entropy: Seq<u8>) -> Seq<u8> {
    deployer + seq![0u8] + entropy
}

/// Whether the factory applies its guarding transform to `salt`.
pub open spec fn is_guarded(deployer: Seq<u8>, salt: Seq<u8>) -> bool {
    salt.len() == 32 && salt.subrange(0, 20) == deployer && salt[20] == 0
}

/// The salt that the factory actually uses.
pub open spec fn effective_salt_spec(deployer: Seq<u8>, salt: Seq<u8>) -> Seq<u8> {
    if is_guarded(deployer, salt) {
        keccak_of(address_word_encoding(deployer, salt))
    } else {
        salt
    }
}

/// The bytes hashed by CREATE2: `0xff ‖ factory ‖ salt ‖ code hash`.
pub open spec fn create2_preimage(factory: Seq<u8>, salt: Seq<u8>, code_hash: Seq<u8>) -> Seq<u8> {
    seq![0xffu8] + factory + salt + code_hash
}

/// The derived address: the last 20 bytes of the CREATE2 digest.
pub open spec fn derived_address_spec(
    factory: Seq<u8>,
    deployer: Seq<u8>,
    code_hash: Seq<u8>,
    salt: Seq<u8>,
) -> Seq<u8> {
    keccak_of(create2_preimage(factory, effective_salt_spec(deployer, salt), code_hash)).subrange(
        12,
        32,
    )
}

/// Who deploys, what is deployed, and through which factory.
pub struct DeploymentContext {
    pub deployer: [u8; 20],
    pub code_hash: [u8; 32],
    pub factory: [u8; 20],
}

/// The CreateX factory address as bytes.
pub fn create_x_factory() -> (r: [u8; 20])
    ensures
        r@ == create_x_factory_spec(),
{
    let r: [u8; 20] = [
        0xba, 0x5e, 0xd0, 0x99, 0x63, 0x3d, 0x3b, 0x31, 0x3e, 0x4d, 0x5f, 0x7b, 0xdc, 0x13,
        0x05, 0xd3, 0xc2, 0x8b, 0xa5, 0xed,
    ];
    assert(r@ =~= create_x_factory_spec());
    r
}

/// The code hash of an initialization bytecode.
pub fn init_code_hash(init_code: &Vec<u8>) -> (r: [u8; 32])
    ensures
        r@ == keccak_of(init_code@),
{
    keccak(init_code)
}

impl DeploymentContext {
    /// A context that deploys through the CreateX factory.
    pub fn new(deployer: [u8; 20], code_hash: [u8; 32]) -> (r: Self)
        ensures
            r.deployer@ == deployer@,
            r.code_hash@ == code_hash@,
            r.factory@ == create_x_factory_spec(),
    {
        DeploymentContext { deployer, code_hash, factory: create_x_factory() }
    }

    /// The address that `salt` yields in this context.
    pub open spec fn address_of(&self, salt: Seq<u8>) -> Seq<u8> {
        derived_address_spec(self.factory@, self.deployer@, self.code_hash@, salt)
    }

    /// Builds the candidate salt owned by the deployer, with a zero guard flag.
    pub fn generate_guarded_salt(&self, random_part: &[u8; 11]) -> (r: [u8; 32])
        ensures
            r@ == candidate_salt_spec(self.deployer@, random_part@),
            is_guarded(self.deployer@, r@),
    {
        let mut salt: [u8; 32] = [0u8; 32];
        let mut i: usize = 0;
        while i < 20
            invariant
                i <= 20,
                forall|k: int| 0 <= k < i ==> salt@[k] == self.deployer@[k],
                forall|k: int| 20 <= k < 32 ==> salt@[k] == 0,
            decreases 20 - i,
        {
            salt[i] = self.deployer[i];
            i = i + 1;
        }
        let mut j: usize = 0;
        while j < 11
            invariant
                j <= 11,
                forall|k: int| 0 <= k < 20 ==> salt@[k] == self.deployer@[k],
                salt@[20] == 0,
                forall|k: int| 0 <= k < j ==> salt@[21 + k] == random_part@[k],
            decreases 11 - j,
        {
            salt[21 + j] = random_part[j];
            j = j + 1;
        }
        assert(salt@ =~= candidate_salt_spec(self.deployer@, random_part@));
        assert(salt@.subrange(0, 20) =~= self.deployer@);
        salt
    }

    /// The factory's guarding transform: a salt that starts with the deployer
    /// and a zero flag byte is replaced by the digest of its ABI encoding with
    /// the deployer; any other salt is used unchanged.
    pub fn calculate_create_x_salt(&self, salt: &[u8; 32]) -> (r: [u8; 32])
        ensures
            r@ == effective_salt_spec(self.deployer@, salt@),
    {
        let mut owned = true;
        let mut i: usize = 0;
        while i < 20
            invariant
                i <= 20,
                owned == (forall|k: int| 0 <= k < i ==> salt@[k] == self.deployer@[k]),
            decreases 20 - i,
        {
            if salt[i] != self.deployer[i] {
                owned = false;
            }
            i = i + 1;
        }
        if owned && salt[20] == 0 {
            assert(salt@.subrange(0, 20) =~= self.deployer@);
            let encoded = abi_encode_address_word(&self.deployer, salt);
            keccak(&encoded)
        } else {
            proof {
                if salt@.subrange(0, 20) == self.deployer@ {
                    assert forall|k: int| 0 <= k < 20 implies salt@[k] == self.deployer@[k] by {
                        assert(salt@.subrange(0, 20)[k] == salt@[k]);
                    }
                }
            }
            *salt
        }
    }

    /// The CREATE2 address that `salt` yields: the last 20 bytes of
    /// `keccak(0xff ‖ factory ‖ guarded salt ‖ code hash)`.
    pub fn compute_create2_address(&self, salt: &[u8; 32]) -> (r: [u8; 20])
        ensures
            r@ == self.address_of(salt@),
    {
        let guarded = self.calculate_create_x_salt(salt);
        let mut input: Vec<u8> = Vec::with_capacity(85);
        input.push(0xff);
        let mut i: usize = 0;
        while i < 20
            invariant
                i <= 20,
                input@ == seq![0xffu8] + self.factory@.subrange(0, i as int),
            decreases 20 - i,
        {
            input.push(self.factory[i]);
            assert(self.factory@.subrange(0, i + 1) =~= self.factory@.subrange(0, i as int).push(self.factory@[i as int]));
            i = i + 1;
        }
        assert(self.factory@.subrange(0, 20) =~= self.factory@);
        let ghost base = input@;
        let mut j: usize = 0;
        while j < 32
            invariant
                j <= 32,
                input@ == base + guarded@.subrange(0, j as int),
            decreases 32 - j,
        {
            input.push(guarded[j]);
            assert(guarded@.subrange(0, j + 1) =~= guarded@.subrange(0, j as int).push(guarded@[j as int]));
            j = j + 1;
        }
        assert(guarded@.subrange(0, 32) =~= guarded@);
        let ghost base2 = input@;
        let mut k: usize = 0;
        while k < 32
            invariant
                k <= 32,
                input@ == base2 + self.code_hash@.subrange(0, k as int),
            decreases 32 - k,
        {
            input.push(self.code_hash[k]);
            assert(self.code_hash@.subrange(0, k + 1) =~= self.code_hash@.subrange(0, k as int).push(self.code_hash@[k as int]));
            k = k + 1;
        }
        assert(self.code_hash@.subrange(0, 32) =~= self.code_hash@);
        assert(input@ =~= create2_preimage(self.factory@, guarded@, self.code_hash@));
        let digest = keccak(&input);
        let mut addr: [u8; 20] = [0u8; 20];
        let mut m: usize = 0;
        while m < 20
            invariant
                m <= 20,
                digest@.len() == 32,
                forall|q: int| 0 <= q < m ==> addr@[q] == digest@[12 + q],
            decreases 20 - m,
        {
            addr[m] = digest[12 + m];
            m = m + 1;
        }
        assert(addr@ =~= digest@.subrange(12, 32));
        addr
    }
}

/// Derivation is a pure function: two contexts with the same deployer, code
/// hash and factory give the same address for the same salt, and
/// `compute_create2_address` returns exactly that address on every call.
pub proof fn lemma_derive_deterministic(
    a: DeploymentContext,
    b: DeploymentContext,
    salt_a: Seq<u8>,
    salt_b: Seq<u8>,
)
    requires
        a.deployer@ == b.deployer@,
        a.code_hash@ == b.code_hash@,
        a.factory@ == b.factory@,
        salt_a == salt_b,
    ensures
        a.address_of(salt_a) == b.address_of(salt_b),
        effective_salt_spec(a.deployer@, salt_a) == effective_salt_spec(b.deployer@, salt_b),
{
}

} // verus!
