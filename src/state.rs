use vstd::bytes::{spec_u64_from_le_bytes, spec_u64_to_le_bytes, u64_from_le_bytes, u64_to_le_bytes, lemma_auto_spec_u64_to_from_le_bytes};
use vstd::prelude::*;

use crate::error::MetalityGameContractError;
use crate::identity::{push_identity, read_identity, zero_identity, Identity};

verus! {

/// Encoded length of a game record.
pub const GAME_STATE_LEN: usize = 228;

/// Encoded length of the sequence counter.
pub const PROGRAM_DATA_STATE_LEN: usize = 9;

/// The byte that stores a flag.
pub open spec fn flag_byte(b: bool) -> u8 {
    if b {
        1
    } else {
        0
    }
}

/// A stored flag byte must be exactly 0 or 1.
pub open spec fn is_flag_byte(b: u8) -> bool {
    b == 0 || b == 1
}

/// One wager: party A's stake, party B's stake once joined, the derived
/// authority address that holds both in custody, and the lifecycle flags.
#[derive(Debug, Clone, Copy, PartialEq)]
pub struct MetalityGameContractState {
    pub is_initialized: bool,
    pub user_a: Identity,
    pub a_nft_ata: Identity,
    pub a_nft_mint: Identity,
    pub user_b: Identity,
    pub user_b_joined: bool,
    pub b_nft_ata: Identity,
    pub b_nft_mint: Identity,
    pub pda_account: Identity,
    pub expired: bool,
    pub game_started: bool,
}

/// The lifecycle position of a game record.
#[derive(Debug, Clone, Copy, PartialEq, Eq, Structural)]
pub enum GamePhase {
    Uninitialized,
    AwaitingOpponent,
    Ready,
    Started,
    Expired,
}

impl MetalityGameContractState {
    /// The fixed-offset layout: initialized, party A, A's custody record, A's
    /// asset, party B, joined, B's custody record, B's asset, authority,
    /// expired, started.
    pub open spec fn encoded(&self) -> Seq<u8> {
        seq![flag_byte(self.is_initialized)] + self.user_a@ + self.a_nft_ata@ + self.a_nft_mint@
            + self.user_b@ + seq![flag_byte(self.user_b_joined)] + self.b_nft_ata@
            + self.b_nft_mint@ + self.pda_account@ + seq![flag_byte(self.expired)] + seq![
            flag_byte(self.game_started),
        ]
    }

    /// The phase derived from the four flags.
    pub open spec fn phase(&self) -> GamePhase {
        if !self.is_initialized {
            GamePhase::Uninitialized
        } else if self.expired {
            GamePhase::Expired
        } else if self.game_started {
            GamePhase::Started
        } else if self.user_b_joined {
            GamePhase::Ready
        } else {
            GamePhase::AwaitingOpponent
        }
    }

    /// The record invariant: party B's fields are blank until B joins, and a
    /// started game has an opponent.
    pub open spec fn well_formed(&self) -> bool {
        &&& !self.user_b_joined ==> {
            &&& self.user_b == zero_identity()
            &&& self.b_nft_ata == zero_identity()
            &&& self.b_nft_mint == zero_identity()
        }
        &&& self.game_started ==> self.user_b_joined
    }

    pub fn is_initialized(&self) -> (r: bool)
        ensures
            r == self.is_initialized,
    {
        self.is_initialized
    }

    pub fn get_packed_len() -> (r: usize)
        ensures
            r == GAME_STATE_LEN,
    {
        GAME_STATE_LEN
    }

    /// Decodes a record from the first [`GAME_STATE_LEN`] bytes of `src`;
    /// every flag byte must be 0 or 1.
    pub fn unpack_from_slice(src: &[u8]) -> (r: Result<Self, MetalityGameContractError>)
        requires
            src@.len() >= GAME_STATE_LEN,
        ensures
            r == decode_game_state(src@.subrange(0, GAME_STATE_LEN as int)),
    {
        let is_initialized = match read_flag(src, 0) {
            Some(b) => b,
            None => return Err(MetalityGameContractError::InvalidAccountData),
        };
        let expired = match read_flag(src, 226) {
            Some(b) => b,
            None => return Err(MetalityGameContractError::InvalidAccountData),
        };
        let user_b_joined = match read_flag(src, 129) {
            Some(b) => b,
            None => return Err(MetalityGameContractError::InvalidAccountData),
        };
        let game_started = match read_flag(src, 227) {
            Some(b) => b,
            None => return Err(MetalityGameContractError::InvalidAccountData),
        };
        let r = MetalityGameContractState {
            is_initialized,
            user_a: read_identity(src, 1),
            a_nft_ata: read_identity(src, 33),
            a_nft_mint: read_identity(src, 65),
            user_b: read_identity(src, 97),
            user_b_joined,
            b_nft_ata: read_identity(src, 130),
            b_nft_mint: read_identity(src, 162),
            pda_account: read_identity(src, 194),
            expired,
            game_started,
        };
        let ghost prefix = src@.subrange(0, GAME_STATE_LEN as int);
        assert(r.encoded() =~= prefix);
        proof {
            let t = choose|t: MetalityGameContractState| t.encoded() == prefix;
            lemma_game_state_encoding_injective(r, t);
        }
        Ok(r)
    }

    /// The encoding of the record as a fresh byte vector.
    pub fn to_bytes(&self) -> (r: Vec<u8>)
        ensures
            r@ == self.encoded(),
    {
        let mut out: Vec<u8> = Vec::new();
        out.push(if self.is_initialized { 1u8 } else { 0u8 });
        push_identity(&mut out, &self.user_a);
        push_identity(&mut out, &self.a_nft_ata);
        push_identity(&mut out, &self.a_nft_mint);
        push_identity(&mut out, &self.user_b);
        out.push(if self.user_b_joined { 1u8 } else { 0u8 });
        push_identity(&mut out, &self.b_nft_ata);
        push_identity(&mut out, &self.b_nft_mint);
        push_identity(&mut out, &self.pda_account);
        out.push(if self.expired { 1u8 } else { 0u8 });
        out.push(if self.game_started { 1u8 } else { 0u8 });
        assert(out@ =~= self.encoded());
        out
    }

    /// Writes the encoding into the first [`GAME_STATE_LEN`] bytes of `dst`.
    pub fn pack_into_slice(&self, dst: &mut [u8])
        requires
            old(dst)@.len() >= GAME_STATE_LEN,
        ensures
            final(dst)@ == self.encoded() + old(dst)@.subrange(GAME_STATE_LEN as int, old(dst)@.len() as int),
    {
        let bytes = self.to_bytes();
        copy_bytes(&bytes, dst);
    }

    /// Decodes a record of any state, checking only the buffer length.
    pub fn unpack_unchecked(input: &[u8]) -> (r: Result<Self, MetalityGameContractError>)
        ensures
            r == decode_game_state(input@),
    {
        if input.len() != GAME_STATE_LEN {
            return Err(MetalityGameContractError::InvalidAccountData);
        }
        assert(input@.subrange(0, GAME_STATE_LEN as int) =~= input@);
        Self::unpack_from_slice(input)
    }

    /// Decodes a record and requires it to be initialized.
    pub fn unpack(input: &[u8]) -> (r: Result<Self, MetalityGameContractError>)
        ensures
            r == match decode_game_state(input@) {
                Ok(s) => if s.is_initialized {
                    Ok(s)
                } else {
                    Err(MetalityGameContractError::UninitializedAccount)
                },
                Err(e) => Err(e),
            },
    {
        let value = Self::unpack_unchecked(input)?;
        if value.is_initialized {
            Ok(value)
        } else {
            Err(MetalityGameContractError::UninitializedAccount)
        }
    }

    /// Writes a record into a buffer, which must be exactly [`GAME_STATE_LEN`]
    /// bytes long; any other buffer is left untouched.
    pub fn pack(src: Self, dst: &mut [u8]) -> (r: Result<(), MetalityGameContractError>)
        ensures
            r is Ok <==> old(dst)@.len() == GAME_STATE_LEN,
            r is Ok ==> final(dst)@ == src.encoded(),
            r is Err ==> final(dst)@ == old(dst)@ && r == Err::<(), _>(
                MetalityGameContractError::InvalidAccountData,
            ),
    {
        if dst.len() != GAME_STATE_LEN {
            return Err(MetalityGameContractError::InvalidAccountData);
        }
        src.pack_into_slice(dst);
        assert(dst@ =~= src.encoded());
        Ok(())
    }
}

/// The bytes of a game record decode: the length is right and every flag
/// byte is 0 or 1.
pub open spec fn game_state_bytes_valid(d: Seq<u8>) -> bool {
    &&& d.len() == GAME_STATE_LEN
    &&& is_flag_byte(d[0])
    &&& is_flag_byte(d[129])
    &&& is_flag_byte(d[226])
    &&& is_flag_byte(d[227])
}

/// The sequence counter that seeds the addresses of new game records.
#[derive(Debug, Clone, Copy, PartialEq, Eq, Structural)]
pub struct MetalityGameProgramDataState {
    pub is_initialized: bool,
    pub index: u64,
}

impl MetalityGameProgramDataState {
    /// The layout: initialized flag, then the index as 8 little-endian bytes.
    pub open spec fn encoded(&self) -> Seq<u8> {
        seq![flag_byte(self.is_initialized)] + spec_u64_to_le_bytes(self.index)
    }

    pub fn is_initialized(&self) -> (r: bool)
        ensures
            r == self.is_initialized,
    {
        self.is_initialized
    }

    pub fn get_packed_len() -> (r: usize)
        ensures
            r == PROGRAM_DATA_STATE_LEN,
    {
        PROGRAM_DATA_STATE_LEN
    }

    /// Decodes the counter from the first [`PROGRAM_DATA_STATE_LEN`] bytes of `src`.
    pub fn unpack_from_slice(src: &[u8]) -> (r: Result<Self, MetalityGameContractError>)
        requires
            src@.len() >= PROGRAM_DATA_STATE_LEN,
        ensures
            r == decode_program_data(src@.subrange(0, PROGRAM_DATA_STATE_LEN as int)),
    {
        let is_initialized = match read_flag(src, 0) {
            Some(b) => b,
            None => return Err(MetalityGameContractError::InvalidAccountData),
        };
        let index_bytes = slice_range(src, 1, 9);
        let index = u64_from_le_bytes(index_bytes.as_slice());
        proof {
            lemma_auto_spec_u64_to_from_le_bytes();
            assert(src@.subrange(1, 9).len() == 8);
        }
        let r = MetalityGameProgramDataState { is_initialized, index };
        let ghost prefix = src@.subrange(0, PROGRAM_DATA_STATE_LEN as int);
        assert(r.encoded() =~= prefix);
        proof {
            let t = choose|t: MetalityGameProgramDataState| t.encoded() == prefix;
            lemma_program_data_encoding_injective(r, t);
        }
        Ok(r)
    }

    /// The encoding of the counter as a fresh byte vector.
    pub fn to_bytes(&self) -> (r: Vec<u8>)
        ensures
            r@ == self.encoded(),
    {
        let mut out: Vec<u8> = Vec::new();
        out.push(if self.is_initialized { 1u8 } else { 0u8 });
        let mut index_bytes = u64_to_le_bytes(self.index);
        out.append(&mut index_bytes);
        assert(out@ =~= self.encoded());
        out
    }

    /// Writes the encoding into the first [`PROGRAM_DATA_STATE_LEN`] bytes of `dst`.
    pub fn pack_into_slice(&self, dst: &mut [u8])
        requires
            old(dst)@.len() >= PROGRAM_DATA_STATE_LEN,
        ensures
            final(dst)@ == self.encoded() + old(dst)@.subrange(PROGRAM_DATA_STATE_LEN as int, old(dst)@.len() as int),
    {
        let bytes = self.to_bytes();
        proof {
            lemma_auto_spec_u64_to_from_le_bytes();
        }
        copy_bytes(&bytes, dst);
    }

    /// Decodes the counter of any state, checking only the buffer length.
    pub fn unpack_unchecked(input: &[u8]) -> (r: Result<Self, MetalityGameContractError>)
        ensures
            r == decode_program_data(input@),
    {
        if input.len() != PROGRAM_DATA_STATE_LEN {
            return Err(MetalityGameContractError::InvalidAccountData);
        }
        assert(input@.subrange(0, PROGRAM_DATA_STATE_LEN as int) =~= input@);
        Self::unpack_from_slice(input)
    }

    /// Decodes the counter and requires it to be initialized.
    pub fn unpack(input: &[u8]) -> (r: Result<Self, MetalityGameContractError>)
        ensures
            r == match decode_program_data(input@) {
                Ok(s) => if s.is_initialized {
                    Ok(s)
                } else {
                    Err(MetalityGameContractError::UninitializedAccount)
                },
                Err(e) => Err(e),
            },
    {
        let value = Self::unpack_unchecked(input)?;
        if value.is_initialized {
            Ok(value)
        } else {
            Err(MetalityGameContractError::UninitializedAccount)
        }
    }

    /// Writes the counter into a buffer, which must be exactly
    /// [`PROGRAM_DATA_STATE_LEN`] bytes long; any other buffer is left untouched.
    pub fn pack(src: Self, dst: &mut [u8]) -> (r: Result<(), MetalityGameContractError>)
        ensures
            r is Ok <==> old(dst)@.len() == PROGRAM_DATA_STATE_LEN,
            r is Ok ==> final(dst)@ == src.encoded(),
            r is Err ==> final(dst)@ == old(dst)@ && r == Err::<(), _>(
                MetalityGameContractError::InvalidAccountData,
            ),
    {
        if dst.len() != PROGRAM_DATA_STATE_LEN {
            return Err(MetalityGameContractError::InvalidAccountData);
        }
        src.pack_into_slice(dst);
        assert(dst@ =~= src.encoded());
        Ok(())
    }
}

/// The record that a game record's bytes decode to.
pub open spec fn decode_game_state(d: Seq<u8>) -> Result<MetalityGameContractState, MetalityGameContractError> {
    if game_state_bytes_valid(d) {
        Ok(choose|s: MetalityGameContractState| s.encoded() == d)
    } else {
        Err(MetalityGameContractError::InvalidAccountData)
    }
}

/// The counter that a counter's bytes decode to.
pub open spec fn decode_program_data(d: Seq<u8>) -> Result<MetalityGameProgramDataState, MetalityGameContractError> {
    if d.len() == PROGRAM_DATA_STATE_LEN && is_flag_byte(d[0]) {
        Ok(choose|s: MetalityGameProgramDataState| s.encoded() == d)
    } else {
        Err(MetalityGameContractError::InvalidAccountData)
    }
}

/// Where each field of a game record stands in its encoding.
proof fn lemma_game_state_layout(s: MetalityGameContractState)
    ensures
        s.encoded().len() == GAME_STATE_LEN,
        s.encoded()[0] == flag_byte(s.is_initialized),
        s.encoded().subrange(1, 33) == s.user_a@,
        s.encoded().subrange(33, 65) == s.a_nft_ata@,
        s.encoded().subrange(65, 97) == s.a_nft_mint@,
        s.encoded().subrange(97, 129) == s.user_b@,
        s.encoded()[129] == flag_byte(s.user_b_joined),
        s.encoded().subrange(130, 162) == s.b_nft_ata@,
        s.encoded().subrange(162, 194) == s.b_nft_mint@,
        s.encoded().subrange(194, 226) == s.pda_account@,
        s.encoded()[226] == flag_byte(s.expired),
        s.encoded()[227] == flag_byte(s.game_started),
{
    let to_user_a = seq![flag_byte(s.is_initialized)] + s.user_a@;
    let to_a_ata = to_user_a + s.a_nft_ata@;
    let to_a_mint = to_a_ata + s.a_nft_mint@;
    let to_user_b = to_a_mint + s.user_b@;
    let to_joined = to_user_b + seq![flag_byte(s.user_b_joined)];
    let to_b_ata = to_joined + s.b_nft_ata@;
    let to_b_mint = to_b_ata + s.b_nft_mint@;
    let to_authority = to_b_mint + s.pda_account@;
    let to_expired = to_authority + seq![flag_byte(s.expired)];
    let e = to_expired + seq![flag_byte(s.game_started)];
    assert(e == s.encoded());
    assert(to_user_a.subrange(1, 33) =~= s.user_a@);
    assert(to_a_ata.subrange(33, 65) =~= s.a_nft_ata@);
    assert(to_a_mint.subrange(65, 97) =~= s.a_nft_mint@);
    assert(to_user_b.subrange(97, 129) =~= s.user_b@);
    assert(to_b_ata.subrange(130, 162) =~= s.b_nft_ata@);
    assert(to_b_mint.subrange(162, 194) =~= s.b_nft_mint@);
    assert(to_authority.subrange(194, 226) =~= s.pda_account@);
    assert(e.subrange(1, 33) =~= to_user_a.subrange(1, 33));
    assert(e.subrange(33, 65) =~= to_a_ata.subrange(33, 65));
    assert(e.subrange(65, 97) =~= to_a_mint.subrange(65, 97));
    assert(e.subrange(97, 129) =~= to_user_b.subrange(97, 129));
    assert(e.subrange(130, 162) =~= to_b_ata.subrange(130, 162));
    assert(e.subrange(162, 194) =~= to_b_mint.subrange(162, 194));
    assert(e.subrange(194, 226) =~= to_authority.subrange(194, 226));
}

/// Two game records with the same encoding are the same record.
pub proof fn lemma_game_state_encoding_injective(s: MetalityGameContractState, t: MetalityGameContractState)
    requires
        s.encoded() == t.encoded(),
    ensures
        s == t,
{
    lemma_game_state_layout(s);
    lemma_game_state_layout(t);
    assert(s.user_a =~= t.user_a);
    assert(s.a_nft_ata =~= t.a_nft_ata);
    assert(s.a_nft_mint =~= t.a_nft_mint);
    assert(s.user_b =~= t.user_b);
    assert(s.b_nft_ata =~= t.b_nft_ata);
    assert(s.b_nft_mint =~= t.b_nft_mint);
    assert(s.pda_account =~= t.pda_account);
}

/// Two counters with the same encoding are the same counter.
pub proof fn lemma_program_data_encoding_injective(s: MetalityGameProgramDataState, t: MetalityGameProgramDataState)
    requires
        s.encoded() == t.encoded(),
    ensures
        s == t,
{
    lemma_auto_spec_u64_to_from_le_bytes();
    let e = s.encoded();
    assert(e.subrange(1, 9) =~= spec_u64_to_le_bytes(s.index));
    assert(e.subrange(1, 9) =~= spec_u64_to_le_bytes(t.index));
    assert(e[0] == flag_byte(s.is_initialized) && e[0] == flag_byte(t.is_initialized));
}

/// Round trip: decoding the encoding of any game record gives that record back.
pub proof fn lemma_game_state_round_trip(s: MetalityGameContractState)
    ensures
        decode_game_state(s.encoded()) == Ok::<_, MetalityGameContractError>(s),
{
    let e = s.encoded();
    lemma_game_state_layout(s);
    let t = choose|t: MetalityGameContractState| t.encoded() == e;
    lemma_game_state_encoding_injective(s, t);
}

/// Round trip: decoding the encoding of any counter gives that counter back.
pub proof fn lemma_program_data_round_trip(s: MetalityGameProgramDataState)
    ensures
        decode_program_data(s.encoded()) == Ok::<_, MetalityGameContractError>(s),
{
    lemma_auto_spec_u64_to_from_le_bytes();
    let e = s.encoded();
    assert(e.len() == PROGRAM_DATA_STATE_LEN);
    let t = choose|t: MetalityGameProgramDataState| t.encoded() == e;
    lemma_program_data_encoding_injective(s, t);
}

/// Decoding rejects garbage: a game record whose flag byte at any of the
/// four flag offsets is neither 0 nor 1 fails with `InvalidAccountData`, as
/// does a counter whose flag byte is neither; no other byte value is coerced.
pub proof fn lemma_bad_flag_rejected(d: Seq<u8>)
    ensures
        d.len() == GAME_STATE_LEN && (!is_flag_byte(d[0]) || !is_flag_byte(d[129]) || !is_flag_byte(
            d[226],
        ) || !is_flag_byte(d[227])) ==> decode_game_state(d) == Err::<MetalityGameContractState, _>(
            MetalityGameContractError::InvalidAccountData,
        ),
        d.len() == PROGRAM_DATA_STATE_LEN && !is_flag_byte(d[0]) ==> decode_program_data(d) == Err::<
            MetalityGameProgramDataState,
            _,
        >(MetalityGameContractError::InvalidAccountData),
{
}

/// Reads a flag byte: `Some` for 0 or 1, `None` for anything else.
fn read_flag(src: &[u8], at: usize) -> (r: Option<bool>)
    requires
        at < src@.len(),
    ensures
        r is Some <==> is_flag_byte(src@[at as int]),
        r is Some ==> flag_byte(r->Some_0) == src@[at as int],
{
    if src[at] == 0 {
        Some(false)
    } else if src[at] == 1 {
        Some(true)
    } else {
        None
    }
}

/// Copies `src[from..to]` into a fresh vector.
fn slice_range(src: &[u8], from: usize, to: usize) -> (r: Vec<u8>)
    requires
        from <= to <= src@.len(),
    ensures
        r@ == src@.subrange(from as int, to as int),
{
    let mut r: Vec<u8> = Vec::new();
    let mut i: usize = from;
    while i < to
        invariant
            from <= i <= to <= src@.len(),
            r@ == src@.subrange(from as int, i as int),
        decreases to - i,
    {
        r.push(src[i]);
        assert(src@.subrange(from as int, i + 1) =~= src@.subrange(from as int, i as int).push(
            src@[i as int],
        ));
        i = i + 1;
    }
    r
}

/// Overwrites the start of `dst` with the bytes of `src`.
fn copy_bytes(src: &Vec<u8>, dst: &mut [u8])
    requires
        src@.len() <= old(dst)@.len(),
    ensures
        final(dst)@ == src@ + old(dst)@.subrange(src@.len() as int, old(dst)@.len() as int),
{
    let n = src.len();
    let mut i: usize = 0;
    while i < n
        invariant
            0 <= i <= n == src@.len() <= dst@.len(),
            dst@.len() == old(dst)@.len(),
            forall|j: int| 0 <= j < i ==> dst@[j] == src@[j],
            forall|j: int| n <= j < dst@.len() ==> dst@[j] == old(dst)@[j],
        decreases n - i,
    {
        dst[i] = src[i];
        i = i + 1;
    }
    assert(dst@ =~= src@ + old(dst)@.subrange(n as int, old(dst)@.len() as int));
}

} // verus!
