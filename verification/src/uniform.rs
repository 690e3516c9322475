//! The uniform block handed to the shading stage.
//!
//! The block is sixteen 32-bit words, each stored least significant byte
//! first:
//!
//! | offset | words | content |
//! |---|---|---|
//! | 0 | 4 | base colour: red, green, blue, alpha |
//! | 16 | 1 | primitive count, an unsigned integer |
//! | 20 | 1 | half extent of a primitive |
//! | 24 | 1 | pace of the motion |
//! | 28 | 1 | padding |
//! | 32 | 4 | frame rates: current, lowest, highest, 1%-low |
//! | 48 | 4 | jitter, acquire latency, two reserved words |
//!
//! All words but the primitive count are binary32 bit patterns.

use vstd::prelude::*;
use vstd::endian::{endianness, Endian};
use crate::scene::SceneParameters;
use crate::scene::SceneModel;

verus! {

/// Number of 32-bit words in a record.
pub const RECORD_WORDS: usize = 16;

/// Number of bytes in a record.
pub const RECORD_BYTES: usize = 64;

/// Bit pattern of the binary32 value one, the alpha of the base colour.
pub const OPAQUE: u32 = 0x3F80_0000;

/// The telemetry of one window as the shading stage reads it: six binary32
/// bit patterns. Rates are frames per second, durations milliseconds.
#[derive(Clone, Copy, Debug, PartialEq, Eq)]
pub struct TelemetryWords {
    pub current_fps: u32,
    pub min_fps: u32,
    pub max_fps: u32,
    pub one_percent_low_fps: u32,
    pub jitter: u32,
    pub acquire_latency: u32,
}

/// One uniform block, field by field.
#[derive(Clone, Copy, Debug, PartialEq, Eq)]
pub struct UniformRecord {
    pub color: [u32; 4],
    pub cube_count: u32,
    pub size: u32,
    pub speed: u32,
    pub padding: u32,
    pub fps_data: [u32; 4],
    pub adv_data: [u32; 4],
}

/// The four bytes of a word, least significant first.
pub open spec fn le_bytes(word: u32) -> Seq<u8> {
    seq![
        (word % 256) as u8,
        (word / 256 % 256) as u8,
        (word / 65536 % 256) as u8,
        (word / 16777216 % 256) as u8,
    ]
}

/// The four bytes of a word, most significant first.
pub open spec fn be_bytes(word: u32) -> Seq<u8> {
    seq![
        (word / 16777216 % 256) as u8,
        (word / 65536 % 256) as u8,
        (word / 256 % 256) as u8,
        (word % 256) as u8,
    ]
}

/// The bytes of a run of words, each word least significant byte first.
pub open spec fn le_image(words: Seq<u32>) -> Seq<u8> {
    Seq::new(4 * words.len(), |i: int| le_bytes(words[i / 4])[i % 4])
}

/// The bytes of a run of words, each word most significant byte first.
pub open spec fn be_image(words: Seq<u32>) -> Seq<u8> {
    Seq::new(4 * words.len(), |i: int| be_bytes(words[i / 4])[i % 4])
}

/// The bytes of a run of words as the executing machine stores them.
pub open spec fn native_image(words: Seq<u32>) -> Seq<u8> {
    match endianness() {
        Endian::Little => le_image(words),
        Endian::Big => be_image(words),
    }
}

/// The record that a scene and a telemetry reading make.
pub open spec fn packed(scene: SceneModel, telemetry: TelemetryWords) -> UniformRecord {
    UniformRecord {
        color: [scene.red, scene.green, scene.blue, OPAQUE],
        cube_count: scene.cube_count,
        size: scene.size,
        speed: scene.speed,
        padding: 0,
        fps_data: [
            telemetry.current_fps,
            telemetry.min_fps,
            telemetry.max_fps,
            telemetry.one_percent_low_fps,
        ],
        adv_data: [telemetry.jitter, telemetry.acquire_latency, 0, 0],
    }
}

/// The telemetry reading of a session in which no window has closed yet:
/// every value is the binary32 zero.
pub open spec fn blank_words() -> TelemetryWords {
    TelemetryWords {
        current_fps: 0,
        min_fps: 0,
        max_fps: 0,
        one_percent_low_fps: 0,
        jitter: 0,
        acquire_latency: 0,
    }
}

/// `bytemuck::cast_slice`, from 32-bit words to bytes. The cast hands out the
/// memory of the words as it lies: four bytes per word, the words in their
/// order, the bytes of a word in the order of the executing machine. From
/// `u32` to `u8` the cast cannot fail, as no alignment is asked for and no
/// byte is left over.
#[verifier::external_body]
fn native_bytes(words: &Vec<u32>) -> (bytes: Vec<u8>)
    ensures
        bytes@ == native_image(words@),
{
    bytemuck::cast_slice::<u32, u8>(words.as_slice()).to_vec()
}

/// Whether the executing machine stores the least significant byte of a word
/// first, found out by casting the word one.
pub fn host_is_little_endian() -> (little: bool)
    ensures
        little <==> endianness() is Little,
{
    let mut probe: Vec<u32> = Vec::new();
    probe.push(1);
    let bytes: Vec<u8> = native_bytes(&probe);
    assert(native_image(probe@).len() == 4);
    assert(le_image(probe@)[0] == 1);
    assert(be_image(probe@)[0] == 0);
    bytes[0] == 1
}

/// The bytes of a run of words, each word least significant byte first,
/// whatever the byte order of the executing machine.
pub fn little_endian_bytes(words: &Vec<u32>) -> (bytes: Vec<u8>)
    ensures
        bytes@ == le_image(words@),
{
    if host_is_little_endian() {
        return native_bytes(words);
    }
    let n: usize = words.len();
    let mut bytes: Vec<u8> = Vec::new();
    let mut i: usize = 0;
    while i < n
        invariant
            i <= n,
            n == words.len(),
            bytes@ == le_image(words@.take(i as int)),
        decreases n - i,
    {
        let word: u32 = words[i];
        let ghost before = bytes@;
        bytes.push((word % 256) as u8);
        bytes.push((word / 256 % 256) as u8);
        bytes.push((word / 65536 % 256) as u8);
        bytes.push((word / 16777216 % 256) as u8);
        proof {
            let grown = words@.take(i as int + 1);
            assert(bytes@ =~= before + le_bytes(word));
            assert forall|k: int| 0 <= k < 4 * (i + 1) implies bytes@[k] == le_image(grown)[k] by {
                if k < 4 * i {
                    assert(grown[k / 4] == words@.take(i as int)[k / 4]);
                } else {
                    assert(k / 4 == i);
                    assert(bytes@[k] == le_bytes(word)[k - 4 * i]);
                }
            }
            assert(bytes@ =~= le_image(grown));
        }
        i = i + 1;
    }
    proof {
        assert(words@.take(n as int) =~= words@);
    }
    bytes
}

impl UniformRecord {
    /// Packs the scene and a telemetry reading into a record.
    pub fn pack(scene: &SceneParameters, telemetry: &TelemetryWords) -> (record: UniformRecord)
        ensures
            record == packed(scene@, *telemetry),
            record.cube_count <= crate::scene::MAX_CUBES,
    {
        let rgb: [u32; 3] = scene.color();
        let record = UniformRecord {
            color: [rgb[0], rgb[1], rgb[2], OPAQUE],
            cube_count: scene.cube_count(),
            size: scene.size(),
            speed: scene.speed(),
            padding: 0,
            fps_data: [
                telemetry.current_fps,
                telemetry.min_fps,
                telemetry.max_fps,
                telemetry.one_percent_low_fps,
            ],
            adv_data: [telemetry.jitter, telemetry.acquire_latency, 0, 0],
        };
        proof {
            let expected = packed(scene@, *telemetry);
            assert(record.color@ =~= expected.color@);
            assert(record.fps_data@ =~= expected.fps_data@);
            assert(record.adv_data@ =~= expected.adv_data@);
        }
        record
    }

    /// The record of a session in which no window has closed yet.
    pub fn initial(scene: &SceneParameters) -> (record: UniformRecord)
        ensures
            record == packed(scene@, blank_words()),
    {
        let telemetry = TelemetryWords {
            current_fps: 0,
            min_fps: 0,
            max_fps: 0,
            one_percent_low_fps: 0,
            jitter: 0,
            acquire_latency: 0,
        };
        UniformRecord::pack(scene, &telemetry)
    }

    /// The words of the record in the order of the block.
    pub fn to_words(&self) -> (words: Vec<u32>)
        ensures
            words@ == self.words(),
            words.len() == RECORD_WORDS,
    {
        let mut words: Vec<u32> = Vec::with_capacity(RECORD_WORDS);
        words.push(self.color[0]);
        words.push(self.color[1]);
        words.push(self.color[2]);
        words.push(self.color[3]);
        words.push(self.cube_count);
        words.push(self.size);
        words.push(self.speed);
        words.push(self.padding);
        words.push(self.fps_data[0]);
        words.push(self.fps_data[1]);
        words.push(self.fps_data[2]);
        words.push(self.fps_data[3]);
        words.push(self.adv_data[0]);
        words.push(self.adv_data[1]);
        words.push(self.adv_data[2]);
        words.push(self.adv_data[3]);
        assert(words@ =~= self.words());
        words
    }

    /// The block as it is handed to the shading stage.
    pub fn to_bytes(&self) -> (bytes: Vec<u8>)
        ensures
            bytes@ == self.wire_image(),
            bytes.len() == RECORD_BYTES,
    {
        let words: Vec<u32> = self.to_words();
        little_endian_bytes(&words)
    }

    /// The sixteen words of the record in the order of the block.
    pub open spec fn words(self) -> Seq<u32> {
        self.color@ + seq![self.cube_count, self.size, self.speed, self.padding] + self.fps_data@
            + self.adv_data@
    }

    /// The sixty-four bytes of the block.
    pub open spec fn wire_image(self) -> Seq<u8> {
        le_image(self.words())
    }
}

/// Every field lies at its offset in the block: the colour in bytes 0 to 15,
/// the primitive count in 16 to 19, the half extent in 20 to 23, the pace in
/// 24 to 27, the padding in 28 to 31, the frame rates in 32 to 47, and jitter,
/// acquire latency and the reserved words in 48 to 63.
pub proof fn lemma_field_offsets(record: UniformRecord)
    ensures
        record.wire_image().len() == RECORD_BYTES,
        record.wire_image().subrange(0, 16) == le_image(record.color@),
        record.wire_image().subrange(16, 20) == le_bytes(record.cube_count),
        record.wire_image().subrange(20, 24) == le_bytes(record.size),
        record.wire_image().subrange(24, 28) == le_bytes(record.speed),
        record.wire_image().subrange(28, 32) == le_bytes(record.padding),
        record.wire_image().subrange(32, 48) == le_image(record.fps_data@),
        record.wire_image().subrange(48, 64) == le_image(record.adv_data@),
{
    let image = record.wire_image();
    let words = record.words();
    assert(words.len() == 16);
    assert(image.subrange(0, 16) =~= le_image(record.color@));
    assert(image.subrange(16, 20) =~= le_bytes(record.cube_count));
    assert(image.subrange(20, 24) =~= le_bytes(record.size));
    assert(image.subrange(24, 28) =~= le_bytes(record.speed));
    assert(image.subrange(28, 32) =~= le_bytes(record.padding));
    assert(image.subrange(32, 48) =~= le_image(record.fps_data@));
    assert(image.subrange(48, 64) =~= le_image(record.adv_data@));
}

} // verus!
