use vstd::prelude::*;

verus! {

/// Number of 32-bit fields in the parameter block.
pub const CONFIG_FIELDS: usize = 10;

/// Width in bytes of each field of the parameter block.
pub const FIELD_BYTES: usize = 4;

/// Size in bytes of the parameter block as the kernel reads it.
pub const CONFIG_BLOCK_SIZE: u32 = 40;

/// Size in bytes of one agent in the agent buffer: a position of two 32-bit
/// floats, a heading, and one word of padding.
pub const AGENT_BYTES: u64 = 16;

/// The four bytes of `w`, least significant first.
pub open spec fn le_word(w: u32) -> Seq<u8> {
    seq![
        (w % 0x100) as u8,
        ((w / 0x100) % 0x100) as u8,
        ((w / 0x1_0000) % 0x100) as u8,
        ((w / 0x100_0000) % 0x100) as u8,
    ]
}

/// The four bytes of `w`, most significant first.
pub open spec fn be_word(w: u32) -> Seq<u8> {
    le_word(w).reverse()
}

/// Words laid out one after another, each in little-endian order.
pub open spec fn le_words(ws: Seq<u32>) -> Seq<u8>
    decreases ws.len(),
{
    if ws.len() == 0 {
        Seq::empty()
    } else {
        le_words(ws.drop_last()) + le_word(ws.last())
    }
}

/// Words laid out one after another, each in big-endian order.
pub open spec fn be_words(ws: Seq<u32>) -> Seq<u8>
    decreases ws.len(),
{
    if ws.len() == 0 {
        Seq::empty()
    } else {
        be_words(ws.drop_last()) + be_word(ws.last())
    }
}

/// The bytes of a run of words are four per word, in either byte order.
pub proof fn lemma_words_len(ws: Seq<u32>)
    ensures
        le_words(ws).len() == 4 * ws.len(),
        be_words(ws).len() == 4 * ws.len(),
    decreases ws.len(),
{
    if ws.len() > 0 {
        lemma_words_len(ws.drop_last());
    }
}

/// Relies on `bytemuck::cast_slice` from `u32` to `u8`, which never fails for
/// that pair of types: the memory of the words, four bytes each, in the byte
/// order of the machine.
#[verifier::external_body]
fn words_as_bytes(words: &[u32]) -> (r: Vec<u8>)
    ensures
        r@ == le_words(words@) || r@ == be_words(words@),
{
    bytemuck::cast_slice::<u32, u8>(words).to_vec()
}

/// The simulation parameters as the kernel reads them: ten 32-bit fields in
/// this order, with no padding. Floating-point fields hold their IEEE-754 bit
/// patterns.
#[derive(Clone, Copy, Debug, PartialEq, Eq, Structural)]
pub struct ConfigBlock {
    pub num_agents: u32,
    pub move_speed: u32,
    pub turn_speed: u32,
    pub sensor_angle: u32,
    pub sensor_offset: u32,
    pub sensor_width: i32,
    pub diffuse_rate: u32,
    pub decay_rate: u32,
    pub time: u32,
    pub delta_time: u32,
}

impl ConfigBlock {
    /// The fields in the order the kernel reads them, the signed field as its
    /// two's-complement word.
    pub open spec fn spec_words(&self) -> Seq<u32> {
        seq![
            self.num_agents,
            self.move_speed,
            self.turn_speed,
            self.sensor_angle,
            self.sensor_offset,
            self.sensor_width as u32,
            self.diffuse_rate,
            self.decay_rate,
            self.time,
            self.delta_time,
        ]
    }

    /// The fields as words, in the order the kernel reads them.
    pub fn words(&self) -> (r: [u32; 10])
        ensures
            r@ == self.spec_words(),
    {
        let r = [
            self.num_agents,
            self.move_speed,
            self.turn_speed,
            self.sensor_angle,
            self.sensor_offset,
            self.sensor_width as u32,
            self.diffuse_rate,
            self.decay_rate,
            self.time,
            self.delta_time,
        ];
        assert(r@ =~= self.spec_words());
        r
    }

    /// The block as the bytes handed to the kernel: each field's four bytes
    /// in the machine's byte order, fields in declared order.
    pub fn to_bytes(&self) -> (r: Vec<u8>)
        ensures
            r@ == le_words(self.spec_words()) || r@ == be_words(self.spec_words()),
            r@.len() == CONFIG_BLOCK_SIZE,
    {
        let words = self.words();
        let r = words_as_bytes(words.as_slice());
        proof {
            lemma_words_len(self.spec_words());
        }
        r
    }
}

/// The parameter block is exactly as large as its fields laid end to end:
/// ten fields of four bytes, and the bytes produced for any block are that
/// many.
pub proof fn lemma_block_size(c: ConfigBlock)
    ensures
        CONFIG_BLOCK_SIZE == CONFIG_FIELDS * FIELD_BYTES,
        c.spec_words().len() == CONFIG_FIELDS,
        le_words(c.spec_words()).len() == CONFIG_BLOCK_SIZE,
        be_words(c.spec_words()).len() == CONFIG_BLOCK_SIZE,
{
    lemma_words_len(c.spec_words());
}

/// Size in bytes of the buffer that holds `num_agents` agents.
pub fn agent_buffer_size(num_agents: u32) -> (r: u64)
    ensures
        r == num_agents * AGENT_BYTES,
{
    num_agents as u64 * AGENT_BYTES
}

} // verus!
