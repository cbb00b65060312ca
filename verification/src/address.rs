use anchor_lang::prelude::Pubkey;
use vstd::prelude::*;
use vstd::slice::slice_to_vec;

verus! {

/// The domain tag under which boards are placed: the bytes of `bounty_board`.
pub const BOARD_SEED: [u8; 12] = [98, 111, 117, 110, 116, 121, 95, 98, 111, 97, 114, 100];

/// The domain tag under which tasks are placed: the bytes of `task`.
pub const TASK_SEED: [u8; 4] = [116, 97, 115, 107];

/// A 32-byte account identifier: the identity of a party or the location of a record.
#[derive(Clone, Copy, Debug, PartialEq, Eq)]
pub struct Address {
    pub bytes: [u8; 32],
}

impl View for Address {
    type V = Seq<u8>;

    open spec fn view(&self) -> Seq<u8> {
        self.bytes@
    }
}

impl Address {
    /// Whether two addresses hold the same 32 bytes.
    pub fn same(&self, other: &Address) -> (r: bool)
        ensures
            r == (*self == *other),
            r == (self@ == other@),
    {
        let mut i: usize = 0;
        while i < 32
            invariant
                i <= 32,
                forall|j: int| 0 <= j < i ==> self.bytes[j] == other.bytes[j],
            decreases 32 - i,
        {
            if self.bytes[i] != other.bytes[i] {
                return false;
            }
            i += 1;
        }
        assert(self.bytes =~= other.bytes);
        true
    }
}

/// A place for a record: a derived address and the bump seed that led to it.
#[derive(Clone, Copy, Debug, PartialEq, Eq)]
pub struct Slot {
    pub key: Address,
    pub bump: u8,
}

/// The `width` low-order bytes of `n`, least significant first.
pub open spec fn le_bytes(n: nat, width: nat) -> Seq<u8>
    decreases width,
{
    if width == 0 {
        Seq::empty()
    } else {
        seq![(n % 256) as u8] + le_bytes(n / 256, (width - 1) as nat)
    }
}

/// The number that `bytes` spell, least significant byte first.
pub open spec fn le_value(bytes: Seq<u8>) -> nat
    decreases bytes.len(),
{
    if bytes.len() == 0 {
        0
    } else {
        bytes[0] as nat + 256 * le_value(bytes.drop_first())
    }
}

/// `256^digits`.
spec fn below(digits: nat) -> nat
    decreases digits,
{
    if digits == 0 {
        1
    } else {
        256 * below((digits - 1) as nat)
    }
}

/// A number below `256^width` is read back whole from its `width` little-endian bytes.
proof fn lemma_le_bytes_round_trip(n: nat, width: nat)
    requires
        n < below(width),
    ensures
        le_bytes(n, width).len() == width,
        le_value(le_bytes(n, width)) == n,
    decreases width,
{
    if width > 0 {
        lemma_le_bytes_round_trip(n / 256, (width - 1) as nat);
        assert(le_bytes(n, width).drop_first() =~= le_bytes(n / 256, (width - 1) as nat));
    }
}

/// Two numbers with the same eight little-endian bytes are the same number.
proof fn lemma_le_bytes_injective(a: u64, b: u64)
    requires
        le_bytes(a as nat, 8) == le_bytes(b as nat, 8),
    ensures
        a == b,
{
    reveal_with_fuel(below, 9);
    lemma_le_bytes_round_trip(a as nat, 8);
    lemma_le_bytes_round_trip(b as nat, 8);
}

/// The eight bytes of `n`, least significant first.
pub fn u64_le_bytes(n: u64) -> (out: Vec<u8>)
    ensures
        out@ == le_bytes(n as nat, 8),
{
    let mut out: Vec<u8> = Vec::new();
    let mut rest: u64 = n;
    let mut i: usize = 0;
    while i < 8
        invariant
            i <= 8,
            out@.len() == i,
            out@ + le_bytes(rest as nat, (8 - i) as nat) == le_bytes(n as nat, 8),
        decreases 8 - i,
    {
        let low: u8 = (rest % 256) as u8;
        proof {
            let tail = le_bytes((rest / 256) as nat, (8 - i - 1) as nat);
            assert(le_bytes(rest as nat, (8 - i) as nat) == seq![low] + tail);
            assert(out@.push(low) + tail =~= out@ + (seq![low] + tail));
        }
        out.push(low);
        rest = rest / 256;
        i += 1;
    }
    assert(out@ + le_bytes(rest as nat, 0) =~= out@);
    out
}

/// The seeds from which the address of an authority's board is derived.
pub open spec fn board_seeds(authority: Address) -> Seq<Seq<u8>> {
    seq![BOARD_SEED@, authority@]
}

/// The seeds from which the address of a board's task with the given number is derived.
pub open spec fn task_seeds(board: Address, task_id: u64) -> Seq<Seq<u8>> {
    seq![TASK_SEED@, board@, le_bytes(task_id as nat, 8)]
}

/// The seeds of a board joined end to end: the tag, then the authority.
proof fn lemma_joined_board_seeds(authority: Address)
    ensures
        board_seeds(authority).flatten() =~= BOARD_SEED@ + authority@,
{
    reveal_with_fuel(Seq::flatten, 3);
    let seeds = board_seeds(authority);
    assert(seeds.drop_first() =~= seq![authority@]);
    assert(seeds.drop_first().drop_first() =~= Seq::<Seq<u8>>::empty());
}

/// The seeds of a task joined end to end: the tag, then the board, then the number.
proof fn lemma_joined_task_seeds(board: Address, task_id: u64)
    ensures
        task_seeds(board, task_id).flatten() =~= TASK_SEED@ + board@ + le_bytes(task_id as nat, 8),
        le_bytes(task_id as nat, 8).len() == 8,
{
    reveal_with_fuel(Seq::flatten, 4);
    reveal_with_fuel(below, 9);
    lemma_le_bytes_round_trip(task_id as nat, 8);
    let number = le_bytes(task_id as nat, 8);
    let seeds = task_seeds(board, task_id);
    assert(seeds.drop_first() =~= seq![board@, number]);
    assert(seeds.drop_first().drop_first() =~= seq![number]);
    assert(seeds.drop_first().drop_first().drop_first() =~= Seq::<Seq<u8>>::empty());
}

/// Distinct records get distinct seeds, also when the seeds are joined end to end, as
/// they are before they are hashed: two tasks differ in their board or in their number,
/// two boards in their authority, and a board and a task in their tag.
pub proof fn law_seeds_are_distinct(
    board: Address,
    other_board: Address,
    task_id: u64,
    other_id: u64,
)
    ensures
        task_seeds(board, task_id).flatten() == task_seeds(other_board, other_id).flatten()
            ==> board == other_board && task_id == other_id,
        board_seeds(board).flatten() == board_seeds(other_board).flatten() ==> board
            == other_board,
        board_seeds(board).flatten() != task_seeds(other_board, other_id).flatten(),
{
    lemma_joined_task_seeds(board, task_id);
    lemma_joined_task_seeds(other_board, other_id);
    lemma_joined_board_seeds(board);
    lemma_joined_board_seeds(other_board);
    let mine = task_seeds(board, task_id).flatten();
    let theirs = task_seeds(other_board, other_id).flatten();
    if mine == theirs {
        assert(mine.subrange(4, 36) =~= board@);
        assert(theirs.subrange(4, 36) =~= other_board@);
        assert(board.bytes =~= other_board.bytes);
        assert(mine.subrange(36, 44) =~= le_bytes(task_id as nat, 8));
        assert(theirs.subrange(36, 44) =~= le_bytes(other_id as nat, 8));
        lemma_le_bytes_injective(task_id, other_id);
    }
    let one = board_seeds(board).flatten();
    let other = board_seeds(other_board).flatten();
    if one == other {
        assert(one.subrange(12, 44) =~= board@);
        assert(other.subrange(12, 44) =~= other_board@);
        assert(board.bytes =~= other_board.bytes);
    }
    assert(one[0] == 98u8);
    assert(theirs[0] == 116u8);
}

/// What the ledger's address derivation yields for a list of seeds under a program:
/// an address together with the bump seed that led to it, or nothing where no bump
/// seed leads to a usable address. The derivation hashes its arguments and tests the
/// hash, which is not written out here; that the addresses of distinct records differ
/// rests on that hash and is not claimed.
pub uninterp spec fn program_address(seeds: Seq<Seq<u8>>, program_id: Seq<u8>) -> Option<(Seq<u8>, u8)>;

/// Whether `slot` is what the ledger derives for `seeds` under `program_id`.
pub open spec fn is_derived(seeds: Seq<Seq<u8>>, program_id: Address, slot: Option<Slot>) -> bool {
    match program_address(seeds, program_id@) {
        Some(found) => slot matches Some(s) && s.key@ == found.0 && s.bump == found.1,
        None => slot is None,
    }
}

/// Calls `Pubkey::try_find_program_address`, as `anchor_lang` hands it on from the
/// ledger's SDK. That function hashes the seeds, a bump seed and the program's id, and
/// searches the bump seeds from 255 downwards for one whose hash can serve as an
/// address; it gives nothing, and does not panic, where there is none or where the
/// seeds are too many or too long. The search reads nothing but its arguments, so the
/// contract claims exactly this of it, without proof: its outcome is the named value
/// `program_address` of the seeds and the program's id.
#[verifier::external_body]
fn find_program_address(seeds: &Vec<Vec<u8>>, program_id: &[u8; 32]) -> (r: Option<([u8; 32], u8)>)
    ensures
        r matches Some(found) ==> program_address(seeds.deep_view(), program_id@) == Some(
            (found.0@, found.1),
        ),
        r is None ==> program_address(seeds.deep_view(), program_id@) is None,
{
    let parts: Vec<&[u8]> = seeds.iter().map(|seed| seed.as_slice()).collect();
    let id = Pubkey::new_from_array(*program_id);
    Pubkey::try_find_program_address(&parts, &id).map(|found| (found.0.to_bytes(), found.1))
}

/// Derives the place for the record whose seeds are given.
fn derive_slot(seeds: &Vec<Vec<u8>>, program_id: &Address) -> (slot: Option<Slot>)
    ensures
        is_derived(seeds.deep_view(), *program_id, slot),
{
    match find_program_address(seeds, &program_id.bytes) {
        Some(found) => Some(Slot { key: Address { bytes: found.0 }, bump: found.1 }),
        None => None,
    }
}

/// The place of the board that `authority` administers under `program_id`.
pub fn board_address(program_id: &Address, authority: &Address) -> (slot: Option<Slot>)
    ensures
        is_derived(board_seeds(*authority), *program_id, slot),
{
    let mut seeds: Vec<Vec<u8>> = Vec::new();
    seeds.push(slice_to_vec(BOARD_SEED.as_slice()));
    seeds.push(slice_to_vec(authority.bytes.as_slice()));
    assert(seeds.deep_view() =~~= board_seeds(*authority));
    derive_slot(&seeds, program_id)
}

/// The place of the task with number `task_id` of the board at `board`.
pub fn task_address(program_id: &Address, board: &Address, task_id: u64) -> (slot: Option<Slot>)
    ensures
        is_derived(task_seeds(*board, task_id), *program_id, slot),
{
    let mut seeds: Vec<Vec<u8>> = Vec::new();
    seeds.push(slice_to_vec(TASK_SEED.as_slice()));
    seeds.push(slice_to_vec(board.bytes.as_slice()));
    seeds.push(u64_le_bytes(task_id));
    assert(seeds.deep_view() =~~= task_seeds(*board, task_id));
    derive_slot(&seeds, program_id)
}

} // verus!
