use vstd::prelude::*;

verus! {

/// The first seed of every escrow address: the bytes of `escrow`.
pub const ESCROW_SEED_TAG: [u8; 6] = [101, 115, 99, 114, 111, 119];

/// The address that the address-derivation function of the ledger gives for
/// `seeds` under `program`, or `None` where it gives none (the hash falls on
/// the curve, or a seed is too long).
pub uninterp spec fn program_address(seeds: Seq<Seq<u8>>, program: Seq<u8>) -> Option<Seq<u8>>;

/// The bytes of each seed.
pub open spec fn seed_bytes(seeds: Seq<Vec<u8>>) -> Seq<Seq<u8>> {
    seeds.map_values(|s: Vec<u8>| s@)
}

/// The seeds of the escrow of one (client, provider, task) triple.
pub open spec fn escrow_seeds_spec(client: Seq<u8>, provider: Seq<u8>, task_hash: Seq<u8>) -> Seq<Seq<u8>> {
    seq![ESCROW_SEED_TAG@, client, provider, task_hash]
}

/// The seeds followed by the one-byte discriminator.
pub open spec fn with_bump(seeds: Seq<Seq<u8>>, bump: u8) -> Seq<Seq<u8>> {
    seeds.push(seq![bump])
}

/// The address that derivation finds for `seeds` under `program`, with its
/// discriminator: the largest discriminator from 1 to 255 whose seeds yield an
/// address; `None` when none of them does.
pub open spec fn derivation(program: Seq<u8>, seeds: Seq<Seq<u8>>) -> Option<(Seq<u8>, u8)> {
    if exists|b: u8| 1 <= b && #[trigger] program_address(with_bump(seeds, b), program) is Some {
        let b = choose|b: u8|
            1 <= b && #[trigger] program_address(with_bump(seeds, b), program) is Some && forall|c: u8|
                b < c ==> #[trigger] program_address(with_bump(seeds, c), program) is None;
        Some((program_address(with_bump(seeds, b), program)->0, b))
    } else {
        None
    }
}

/// A found discriminator rebuilds the found address: rebuilding an address
/// from the recorded discriminator always gives the address found at
/// creation.
pub proof fn lemma_derivation_rebuilds(program: Seq<u8>, seeds: Seq<Seq<u8>>)
    ensures
        derivation(program, seeds) matches Some((a, b)) ==> program_address(with_bump(seeds, b), program)
            == Some(a),
{
    if exists|b: u8| 1 <= b && #[trigger] program_address(with_bump(seeds, b), program) is Some {
        let b0 = choose|b: u8| 1 <= b && #[trigger] program_address(with_bump(seeds, b), program) is Some;
        lemma_largest_bump(program, seeds, b0);
    }
}

proof fn lemma_largest_bump(program: Seq<u8>, seeds: Seq<Seq<u8>>, b0: u8)
    requires
        1 <= b0,
        program_address(with_bump(seeds, b0), program) is Some,
    ensures
        exists|b: u8|
            1 <= b && #[trigger] program_address(with_bump(seeds, b), program) is Some && forall|c: u8|
                b < c ==> #[trigger] program_address(with_bump(seeds, c), program) is None,
    decreases 255 - b0,
{
    if exists|c: u8| b0 < c && #[trigger] program_address(with_bump(seeds, c), program) is Some {
        let c = choose|c: u8| b0 < c && #[trigger] program_address(with_bump(seeds, c), program) is Some;
        lemma_largest_bump(program, seeds, c);
    } else {
        assert(forall|c: u8| b0 < c ==> #[trigger] program_address(with_bump(seeds, c), program) is None);
    }
}

/// Relies on `Pubkey::try_find_program_address`: it tries the discriminators
/// 255 down to 1 and returns the first for which `create_program_address`
/// yields an address, with that address; `None` when none does.
#[verifier::external_body]
fn find_program_address(seeds: &Vec<Vec<u8>>, program: &[u8; 32]) -> (r: Option<([u8; 32], u8)>)
    ensures
        match r {
            Some((a, b)) => {
                &&& 1 <= b
                &&& program_address(with_bump(seed_bytes(seeds@), b), program@) == Some(a@)
                &&& forall|c: u8| b < c ==> program_address(with_bump(seed_bytes(seeds@), c), program@) is None
            },
            None => forall|c: u8| 1 <= c ==> program_address(with_bump(seed_bytes(seeds@), c), program@) is None,
        },
{
    let refs: Vec<&[u8]> = seeds.iter().map(|s| s.as_slice()).collect();
    let id = anchor_lang::prelude::Pubkey::new_from_array(*program);
    anchor_lang::prelude::Pubkey::try_find_program_address(&refs, &id).map(|(a, b)| (a.to_bytes(), b))
}

/// Relies on `Pubkey::create_program_address`: the derived address of the
/// seeds, or an error where there is none.
#[verifier::external_body]
fn create_program_address(seeds: &Vec<Vec<u8>>, program: &[u8; 32]) -> (r: Option<[u8; 32]>)
    ensures
        match r {
            Some(a) => program_address(seed_bytes(seeds@), program@) == Some(a@),
            None => program_address(seed_bytes(seeds@), program@) is None,
        },
{
    let refs: Vec<&[u8]> = seeds.iter().map(|s| s.as_slice()).collect();
    let id = anchor_lang::prelude::Pubkey::new_from_array(*program);
    anchor_lang::prelude::Pubkey::create_program_address(&refs, &id).ok().map(|a| a.to_bytes())
}

/// The bytes of a fixed-size array, as a vector.
pub(crate) fn bytes_of<const N: usize>(a: &[u8; N]) -> (r: Vec<u8>)
    ensures
        r@ == a@,
{
    let mut r: Vec<u8> = Vec::new();
    let mut i: usize = 0;
    while i < N
        invariant
            i <= N,
            a@.len() == N,
            r@ == a@.subrange(0, i as int),
        decreases N - i,
    {
        r.push(a[i]);
        i = i + 1;
    }
    assert(r@ =~= a@);
    r
}

/// The seeds of the escrow of one (client, provider, task) triple.
pub fn escrow_seeds(client: &[u8; 32], provider: &[u8; 32], task_hash: &[u8; 32]) -> (r: Vec<Vec<u8>>)
    ensures
        seed_bytes(r@) == escrow_seeds_spec(client@, provider@, task_hash@),
{
    let mut r: Vec<Vec<u8>> = Vec::new();
    r.push(bytes_of(&ESCROW_SEED_TAG));
    r.push(bytes_of(client));
    r.push(bytes_of(provider));
    r.push(bytes_of(task_hash));
    assert(seed_bytes(r@) =~= escrow_seeds_spec(client@, provider@, task_hash@));
    r
}

/// Derives the escrow address of a triple: the first discriminator from 255
/// down that yields an address, with that address; `None` when none does.
pub fn derive_escrow_address(
    program: &[u8; 32],
    client: &[u8; 32],
    provider: &[u8; 32],
    task_hash: &[u8; 32],
) -> (r: Option<([u8; 32], u8)>)
    ensures
        match r {
            Some((a, b)) => derivation(program@, escrow_seeds_spec(client@, provider@, task_hash@)) == Some((a@, b)),
            None => derivation(program@, escrow_seeds_spec(client@, provider@, task_hash@)) is None,
        },
{
    let seeds = escrow_seeds(client, provider, task_hash);
    let r = find_program_address(&seeds, program);
    proof {
        let sd = escrow_seeds_spec(client@, provider@, task_hash@);
        if let Some((a, b)) = r {
            let w = choose|w: u8|
                1 <= w && #[trigger] program_address(with_bump(sd, w), program@) is Some && forall|c: u8|
                    w < c ==> #[trigger] program_address(with_bump(sd, c), program@) is None;
            assert(program_address(with_bump(sd, b), program@) is Some);
            if w < b {
                assert(program_address(with_bump(sd, b), program@) is None);
            }
            if b < w {
                assert(program_address(with_bump(sd, w), program@) is None);
            }
        }
    }
    r
}

/// Rebuilds the escrow address of a triple from the discriminator recorded at
/// creation, without searching.
pub fn escrow_address(
    program: &[u8; 32],
    client: &[u8; 32],
    provider: &[u8; 32],
    task_hash: &[u8; 32],
    bump: u8,
) -> (r: Option<[u8; 32]>)
    ensures
        match r {
            Some(a) => program_address(with_bump(escrow_seeds_spec(client@, provider@, task_hash@), bump), program@) == Some(a@),
            None => program_address(with_bump(escrow_seeds_spec(client@, provider@, task_hash@), bump), program@) is None,
        },
{
    let seeds = escrow_signer_seeds(client, provider, task_hash, bump);
    create_program_address(&seeds, program)
}

/// The seeds that sign for an escrow's address: the escrow's seeds followed
/// by its discriminator.
pub fn escrow_signer_seeds(client: &[u8; 32], provider: &[u8; 32], task_hash: &[u8; 32], bump: u8) -> (r: Vec<
    Vec<u8>,
>)
    ensures
        seed_bytes(r@) == with_bump(escrow_seeds_spec(client@, provider@, task_hash@), bump),
{
    let mut seeds = escrow_seeds(client, provider, task_hash);
    let tail: Vec<u8> = vec![bump];
    assert(tail@ =~= seq![bump]);
    seeds.push(tail);
    assert(seed_bytes(seeds@) =~= with_bump(escrow_seeds_spec(client@, provider@, task_hash@), bump));
    seeds
}

} // verus!
