use vstd::prelude::*;
use vstd::slice::slice_to_vec;

verus! {

/// Presence state reported by the occupancy sensor.
#[derive(Clone, Copy, Debug, PartialEq, Eq, Structural)]
pub enum Occupancy {
    NoBody,
    PendingOrPir,
    OccupiedOrHeat,
}

/// A decoded payload. Each field is absent until a tag that sets it is read.
///
/// The temperature is held in tenths of a degree Celsius, so the full range
/// of the sensor, -3276.8 to 3276.7, is exactly the range of `i16`.
#[derive(Clone, Copy, Debug)]
pub struct Uplink {
    pub temperature_x10: Option<i16>,
    pub co2: Option<u16>,
    pub battery_mv: Option<u16>,
    pub occupancy: Option<Occupancy>,
    pub external_digital: Option<bool>,
}

/// What went wrong while walking a payload, with the position it went wrong at.
#[derive(Clone, Copy, Debug, PartialEq, Eq, Structural)]
pub enum DecodeError {
    /// The byte at `index` is not the identifier of any known tag.
    UnrecognizedTag { index: usize, value: u8 },
    /// The tag at `index` declares `size` payload bytes, more than the buffer holds.
    TruncatedPayload { index: usize, value: u8, size: usize },
    /// The payload byte at `index` is outside the value set of its tag.
    InvalidEnumValue { index: usize, value: u8 },
}

/// A failed decode: what went wrong, and the buffer it went wrong in.
#[derive(Clone, Debug, PartialEq, Eq)]
pub struct UplinkError {
    pub input: Vec<u8>,
    pub kind: DecodeError,
}

/// How the payload of a tag is turned into a field of the record.
#[derive(Clone, Copy, Debug, PartialEq, Eq, Structural)]
pub enum Decoder {
    Temperature,
    Co2,
    Battery,
    ExternalDigital,
    Occupancy,
    /// Consumes the payload and records nothing.
    NoDecode,
}

/// One entry of the layout table: a tag identifier, the number of payload
/// bytes that follow the tag byte, and how those bytes are decoded.
#[derive(Clone, Copy, Debug, PartialEq, Eq, Structural)]
pub struct Layout {
    pub identifier: u8,
    pub size: usize,
    pub bin_to: Decoder,
}

/// The record with every field absent.
pub open spec fn empty_uplink() -> Uplink {
    Uplink {
        temperature_x10: None,
        co2: None,
        battery_mv: None,
        occupancy: None,
        external_digital: None,
    }
}

/// The value of a 16-bit pattern read as a two's-complement number.
pub open spec fn sign_extend16(bin: u16) -> int {
    if bin < 0x8000 {
        bin as int
    } else {
        bin as int - 0x10000
    }
}

/// The big-endian 16-bit number made of two bytes.
pub open spec fn be16(hi: u8, lo: u8) -> u16 {
    (hi as int * 256 + lo as int) as u16
}

/// The known tags, in the order in which they are matched.
pub open spec fn layout_table() -> Seq<Layout> {
    seq![
        Layout { identifier: 0x01, size: 2, bin_to: Decoder::Temperature },
        Layout { identifier: 0x02, size: 1, bin_to: Decoder::NoDecode },
        Layout { identifier: 0x03, size: 3, bin_to: Decoder::NoDecode },
        Layout { identifier: 0x04, size: 2, bin_to: Decoder::NoDecode },
        Layout { identifier: 0x05, size: 1, bin_to: Decoder::NoDecode },
        Layout { identifier: 0x06, size: 2, bin_to: Decoder::Co2 },
        Layout { identifier: 0x07, size: 2, bin_to: Decoder::Battery },
        Layout { identifier: 0x08, size: 2, bin_to: Decoder::NoDecode },
        Layout { identifier: 0x09, size: 6, bin_to: Decoder::NoDecode },
        Layout { identifier: 0x0a, size: 2, bin_to: Decoder::NoDecode },
        Layout { identifier: 0x0b, size: 4, bin_to: Decoder::NoDecode },
        Layout { identifier: 0x0c, size: 2, bin_to: Decoder::NoDecode },
        Layout { identifier: 0x0d, size: 1, bin_to: Decoder::ExternalDigital },
        Layout { identifier: 0x0e, size: 2, bin_to: Decoder::NoDecode },
        Layout { identifier: 0x0f, size: 1, bin_to: Decoder::NoDecode },
        Layout { identifier: 0x10, size: 4, bin_to: Decoder::NoDecode },
        Layout { identifier: 0x11, size: 1, bin_to: Decoder::Occupancy },
        Layout { identifier: 0x12, size: 1, bin_to: Decoder::NoDecode },
        Layout { identifier: 0x13, size: 65, bin_to: Decoder::NoDecode },
        Layout { identifier: 0x14, size: 4, bin_to: Decoder::NoDecode },
        Layout { identifier: 0x15, size: 2, bin_to: Decoder::NoDecode },
        Layout { identifier: 0x16, size: 2, bin_to: Decoder::NoDecode },
        Layout { identifier: 0x17, size: 4, bin_to: Decoder::NoDecode },
        Layout { identifier: 0x18, size: 2, bin_to: Decoder::NoDecode },
        Layout { identifier: 0x19, size: 2, bin_to: Decoder::NoDecode },
        Layout { identifier: 0x1a, size: 1, bin_to: Decoder::NoDecode },
        Layout { identifier: 0x1b, size: 4, bin_to: Decoder::NoDecode },
        Layout { identifier: 0x1c, size: 2, bin_to: Decoder::NoDecode },
        Layout { identifier: 0x3d, size: 4, bin_to: Decoder::NoDecode },
    ]
}

/// The first entry of `table` whose identifier is `id`.
pub open spec fn find_layout(table: Seq<Layout>, id: u8) -> Option<Layout>
    decreases table.len(),
{
    if table.len() == 0 {
        None
    } else if table[0].identifier == id {
        Some(table[0])
    } else {
        find_layout(table.drop_first(), id)
    }
}

/// An entry declares at least one payload byte, and two for the decoders
/// that read a 16-bit number.
pub open spec fn entry_ok(e: Layout) -> bool {
    &&& e.size >= 1
    &&& (e.bin_to == Decoder::Temperature || e.bin_to == Decoder::Co2 || e.bin_to
        == Decoder::Battery) ==> e.size == 2
}

proof fn lemma_table_entries_ok()
    ensures
        forall|k: int| 0 <= k < layout_table().len() ==> entry_ok(#[trigger] layout_table()[k]),
{
}

proof fn lemma_find_layout_ok(t: Seq<Layout>, id: u8)
    requires
        forall|k: int| 0 <= k < t.len() ==> entry_ok(#[trigger] t[k]),
    ensures
        find_layout(t, id) matches Some(e) ==> entry_ok(e),
    decreases t.len(),
{
    if t.len() > 0 && t[0].identifier != id {
        assert(forall|k: int| 0 <= k < t.drop_first().len() ==> t.drop_first()[k] == t[k + 1]);
        lemma_find_layout_ok(t.drop_first(), id);
    }
}

/// What decoder `d` makes of the payload starting at `i`, applied to `acc`.
pub open spec fn decode_field(d: Decoder, input: Seq<u8>, i: int, acc: Uplink) -> Result<
    Uplink,
    DecodeError,
> {
    match d {
        Decoder::Temperature => Ok(
            Uplink {
                temperature_x10: Some(sign_extend16(be16(input[i], input[i + 1])) as i16),
                ..acc
            },
        ),
        Decoder::Co2 => Ok(Uplink { co2: Some(be16(input[i], input[i + 1])), ..acc }),
        Decoder::Battery => Ok(Uplink { battery_mv: Some(be16(input[i], input[i + 1])), ..acc }),
        Decoder::ExternalDigital => if input[i] == 0 {
            Ok(Uplink { external_digital: Some(false), ..acc })
        } else if input[i] == 1 {
            Ok(Uplink { external_digital: Some(true), ..acc })
        } else {
            Err(DecodeError::InvalidEnumValue { index: i as usize, value: input[i] })
        },
        Decoder::Occupancy => if input[i] == 0 {
            Ok(Uplink { occupancy: Some(Occupancy::NoBody), ..acc })
        } else if input[i] == 1 {
            Ok(Uplink { occupancy: Some(Occupancy::PendingOrPir), ..acc })
        } else if input[i] == 2 {
            Ok(Uplink { occupancy: Some(Occupancy::OccupiedOrHeat), ..acc })
        } else {
            Err(DecodeError::InvalidEnumValue { index: i as usize, value: input[i] })
        },
        Decoder::NoDecode => Ok(acc),
    }
}

/// The result of walking `input` from position `i` with the record `acc`
/// built so far.
pub open spec fn decode_from(input: Seq<u8>, i: int, acc: Uplink) -> Result<Uplink, DecodeError>
    decreases input.len() - i,
{
    if i < 0 || i >= input.len() {
        Ok(acc)
    } else {
        match find_layout(layout_table(), input[i]) {
            None => Err(DecodeError::UnrecognizedTag { index: i as usize, value: input[i] }),
            Some(entry) => if input.len() <= i + entry.size {
                Err(
                    DecodeError::TruncatedPayload {
                        index: i as usize,
                        value: input[i],
                        size: entry.size,
                    },
                )
            } else {
                match decode_field(entry.bin_to, input, i + 1, acc) {
                    Ok(next) => decode_from(input, i + entry.size + 1, next),
                    Err(e) => Err(e),
                }
            },
        }
    }
}

/// The result of decoding a whole buffer.
pub open spec fn decode(input: Seq<u8>) -> Result<Uplink, DecodeError> {
    decode_from(input, 0, empty_uplink())
}

/// Reads a 16-bit pattern as a signed number: the unsigned value when the
/// top bit is clear, and the unsigned value less 65536 when it is set.
pub fn bin16_to_dec(bin: u16) -> (r: i16)
    ensures
        r as int == sign_extend16(bin),
{
    assert((0x8000u16 & bin) == 0u16 <==> bin < 0x8000u16) by (bit_vector);
    if 0x8000 & bin == 0 {
        bin as i16
    } else {
        let negative: i64 = -(0x010000 - bin as i64);
        negative as i16
    }
}

/// Whether two optional fixed-point values are within half of `resolution`
/// of each other. Two absent values are close; a present value is never
/// close to an absent one.
pub open spec fn is_close(x: Option<i32>, y: Option<i32>, resolution: i32) -> bool {
    match (x, y) {
        (Some(a), Some(b)) => 2 * (a - b) < resolution && 2 * (b - a) < resolution,
        (None, None) => true,
        _ => false,
    }
}

/// A temperature in tenths of a degree, widened for comparison.
pub open spec fn widen(t: Option<i16>) -> Option<i32> {
    match t {
        Some(v) => Some(v as i32),
        None => None,
    }
}

/// Record equality: temperatures within half a tenth of a degree, every
/// other field exactly equal.
pub open spec fn uplink_eq(a: Uplink, b: Uplink) -> bool {
    &&& is_close(widen(a.temperature_x10), widen(b.temperature_x10), 1)
    &&& a.co2 == b.co2
    &&& a.battery_mv == b.battery_mv
    &&& a.occupancy == b.occupancy
    &&& a.external_digital == b.external_digital
}

/// Compares two optional fixed-point values with the tolerance of `is_close`.
pub fn close(x: Option<i32>, y: Option<i32>, resolution: i32) -> (r: bool)
    ensures
        r == is_close(x, y, resolution),
{
    match (x, y) {
        (Some(a), Some(b)) => {
            let d: i64 = a as i64 - b as i64;
            d * 2 < resolution as i64 && -d * 2 < resolution as i64
        },
        (Some(_), None) | (None, Some(_)) => false,
        (None, None) => true,
    }
}

fn widen_temperature(t: Option<i16>) -> (r: Option<i32>)
    ensures
        r == widen(t),
{
    match t {
        Some(v) => Some(v as i32),
        None => None,
    }
}

impl PartialEq for Uplink {
    fn eq(&self, other: &Self) -> bool {
        close(
            widen_temperature(self.temperature_x10),
            widen_temperature(other.temperature_x10),
            1,
        ) && self.co2 == other.co2 && self.battery_mv == other.battery_mv && self.occupancy
            == other.occupancy && self.external_digital == other.external_digital
    }
}

impl vstd::std_specs::cmp::PartialEqSpecImpl for Uplink {
    open spec fn obeys_eq_spec() -> bool {
        true
    }

    open spec fn eq_spec(&self, other: &Uplink) -> bool {
        uplink_eq(*self, *other)
    }
}

impl Default for Uplink {
    /// The record with every field absent.
    fn default() -> (r: Uplink)
        ensures
            r == empty_uplink(),
    {
        Uplink {
            temperature_x10: None,
            co2: None,
            battery_mv: None,
            occupancy: None,
            external_digital: None,
        }
    }
}

/// The big-endian 16-bit number at positions `i` and `i + 1`.
fn read_be16(input: &[u8], i: usize) -> (r: u16)
    requires
        i + 1 < input@.len(),
    ensures
        r == be16(input@[i as int], input@[i + 1]),
{
    let hi: u8 = input[i];
    let lo: u8 = input[i + 1];
    let r: u16 = ((hi as u16) << 8) | lo as u16;
    assert(((hi as u16) << 8u16) | (lo as u16) == (hi as u16) * 256u16 + (lo as u16)) by (bit_vector)
        requires
            hi < 256u16,
    ;
    r
}

/// Sets the temperature from the two payload bytes at `i`.
fn temperature(input: &[u8], i: usize, output: &mut Uplink) -> (r: Result<(), UplinkError>)
    requires
        i + 1 < input@.len(),
    ensures
        r is Ok,
        Ok::<Uplink, DecodeError>(*final(output)) == decode_field(
            Decoder::Temperature,
            input@,
            i as int,
            *old(output),
        ),
{
    let temperature_x10_pos = read_be16(input, i);
    let temperature_x10 = bin16_to_dec(temperature_x10_pos);
    output.temperature_x10 = Some(temperature_x10);
    Ok(())
}

/// Sets the CO2 concentration from the two payload bytes at `i`.
fn co2(input: &[u8], i: usize, output: &mut Uplink) -> (r: Result<(), UplinkError>)
    requires
        i + 1 < input@.len(),
    ensures
        r is Ok,
        Ok::<Uplink, DecodeError>(*final(output)) == decode_field(
            Decoder::Co2,
            input@,
            i as int,
            *old(output),
        ),
{
    output.co2 = Some(read_be16(input, i));
    Ok(())
}

/// Sets the battery level from the two payload bytes at `i`.
fn battery(input: &[u8], i: usize, output: &mut Uplink) -> (r: Result<(), UplinkError>)
    requires
        i + 1 < input@.len(),
    ensures
        r is Ok,
        Ok::<Uplink, DecodeError>(*final(output)) == decode_field(
            Decoder::Battery,
            input@,
            i as int,
            *old(output),
        ),
{
    output.battery_mv = Some(read_be16(input, i));
    Ok(())
}

/// Sets the contact state from the payload byte at `i`: 0 is open, 1 closed.
fn external_digital(input: &[u8], i: usize, output: &mut Uplink) -> (r: Result<(), UplinkError>)
    requires
        i < input@.len(),
    ensures
        match decode_field(Decoder::ExternalDigital, input@, i as int, *old(output)) {
            Ok(u) => r is Ok && *final(output) == u,
            Err(k) => r matches Err(e) && e.kind == k && e.input@ == input@,
        },
{
    output.external_digital = match input[i] {
        0 => Some(false),
        1 => Some(true),
        _ => {
            return Err(
                UplinkError {
                    input: slice_to_vec(input),
                    kind: DecodeError::InvalidEnumValue { index: i, value: input[i] },
                },
            );
        },
    };
    Ok(())
}

/// Sets the occupancy state from the payload byte at `i`.
fn occupancy(input: &[u8], i: usize, output: &mut Uplink) -> (r: Result<(), UplinkError>)
    requires
        i < input@.len(),
    ensures
        match decode_field(Decoder::Occupancy, input@, i as int, *old(output)) {
            Ok(u) => r is Ok && *final(output) == u,
            Err(k) => r matches Err(e) && e.kind == k && e.input@ == input@,
        },
{
    output.occupancy = match input[i] {
        0 => Some(Occupancy::NoBody),
        1 => Some(Occupancy::PendingOrPir),
        2 => Some(Occupancy::OccupiedOrHeat),
        _ => {
            return Err(
                UplinkError {
                    input: slice_to_vec(input),
                    kind: DecodeError::InvalidEnumValue { index: i, value: input[i] },
                },
            );
        },
    };
    Ok(())
}

/// Consumes a payload without recording anything.
fn no_decode(_input: &[u8], _i: usize, output: &mut Uplink) -> (r: Result<(), UplinkError>)
    ensures
        r is Ok,
        *final(output) == *old(output),
{
    Ok(())
}

/// Runs decoder `d` on the payload that starts at `i`.
fn apply_decoder(d: Decoder, input: &[u8], i: usize, output: &mut Uplink) -> (r: Result<
    (),
    UplinkError,
>)
    requires
        i + 1 < input@.len() || (i < input@.len() && d != Decoder::Temperature && d
            != Decoder::Co2 && d != Decoder::Battery),
    ensures
        match decode_field(d, input@, i as int, *old(output)) {
            Ok(u) => r is Ok && *final(output) == u,
            Err(k) => r matches Err(e) && e.kind == k && e.input@ == input@,
        },
{
    match d {
        Decoder::Temperature => temperature(input, i, output),
        Decoder::Co2 => co2(input, i, output),
        Decoder::Battery => battery(input, i, output),
        Decoder::ExternalDigital => external_digital(input, i, output),
        Decoder::Occupancy => occupancy(input, i, output),
        Decoder::NoDecode => no_decode(input, i, output),
    }
}

/// The layout table as a vector.
fn layout() -> (r: Vec<Layout>)
    ensures
        r@ == layout_table(),
{
    let mut t: Vec<Layout> = Vec::new();
    t.push(Layout { identifier: 0x01, size: 2, bin_to: Decoder::Temperature });
    t.push(Layout { identifier: 0x02, size: 1, bin_to: Decoder::NoDecode });
    t.push(Layout { identifier: 0x03, size: 3, bin_to: Decoder::NoDecode });
    t.push(Layout { identifier: 0x04, size: 2, bin_to: Decoder::NoDecode });
    t.push(Layout { identifier: 0x05, size: 1, bin_to: Decoder::NoDecode });
    t.push(Layout { identifier: 0x06, size: 2, bin_to: Decoder::Co2 });
    t.push(Layout { identifier: 0x07, size: 2, bin_to: Decoder::Battery });
    t.push(Layout { identifier: 0x08, size: 2, bin_to: Decoder::NoDecode });
    t.push(Layout { identifier: 0x09, size: 6, bin_to: Decoder::NoDecode });
    t.push(Layout { identifier: 0x0a, size: 2, bin_to: Decoder::NoDecode });
    t.push(Layout { identifier: 0x0b, size: 4, bin_to: Decoder::NoDecode });
    t.push(Layout { identifier: 0x0c, size: 2, bin_to: Decoder::NoDecode });
    t.push(Layout { identifier: 0x0d, size: 1, bin_to: Decoder::ExternalDigital });
    t.push(Layout { identifier: 0x0e, size: 2, bin_to: Decoder::NoDecode });
    t.push(Layout { identifier: 0x0f, size: 1, bin_to: Decoder::NoDecode });
    t.push(Layout { identifier: 0x10, size: 4, bin_to: Decoder::NoDecode });
    t.push(Layout { identifier: 0x11, size: 1, bin_to: Decoder::Occupancy });
    t.push(Layout { identifier: 0x12, size: 1, bin_to: Decoder::NoDecode });
    t.push(Layout { identifier: 0x13, size: 65, bin_to: Decoder::NoDecode });
    t.push(Layout { identifier: 0x14, size: 4, bin_to: Decoder::NoDecode });
    t.push(Layout { identifier: 0x15, size: 2, bin_to: Decoder::NoDecode });
    t.push(Layout { identifier: 0x16, size: 2, bin_to: Decoder::NoDecode });
    t.push(Layout { identifier: 0x17, size: 4, bin_to: Decoder::NoDecode });
    t.push(Layout { identifier: 0x18, size: 2, bin_to: Decoder::NoDecode });
    t.push(Layout { identifier: 0x19, size: 2, bin_to: Decoder::NoDecode });
    t.push(Layout { identifier: 0x1a, size: 1, bin_to: Decoder::NoDecode });
    t.push(Layout { identifier: 0x1b, size: 4, bin_to: Decoder::NoDecode });
    t.push(Layout { identifier: 0x1c, size: 2, bin_to: Decoder::NoDecode });
    t.push(Layout { identifier: 0x3d, size: 4, bin_to: Decoder::NoDecode });
    assert(t@ =~= layout_table());
    t
}

/// Searches `table` in order for the entry of identifier `id`.
fn lookup(table: &Vec<Layout>, id: u8) -> (r: Option<Layout>)
    ensures
        r == find_layout(table@, id),
{
    let mut j: usize = 0;
    assert(table@.skip(0) =~= table@);
    while j < table.len()
        invariant
            j <= table@.len(),
            find_layout(table@, id) == find_layout(table@.skip(j as int), id),
        decreases table@.len() - j,
    {
        assert(table@.skip(j as int).drop_first() =~= table@.skip(j + 1));
        if table[j].identifier == id {
            return Some(table[j]);
        }
        j += 1;
    }
    assert(table@.skip(j as int).len() == 0);
    None
}

/// Fails unless the `pattern_size` payload bytes of the tag at `i` lie
/// inside `input`, that is unless `input.len() > i + pattern_size`.
pub fn verify_array_length(input: &[u8], i: usize, pattern_size: usize) -> (r: Result<
    (),
    UplinkError,
>)
    requires
        i < input@.len(),
    ensures
        input@.len() > i + pattern_size <==> r is Ok,
        r matches Err(e) ==> e.input@ == input@ && e.kind == (DecodeError::TruncatedPayload {
            index: i,
            value: input@[i as int],
            size: pattern_size,
        }),
{
    if input.len() - i <= pattern_size {
        return Err(
            UplinkError {
                input: slice_to_vec(input),
                kind: DecodeError::TruncatedPayload { index: i, value: input[i], size: pattern_size },
            },
        );
    }
    Ok(())
}

/// Fails unless a tag was found for the byte at `i`.
pub fn verify_pattern_matches(input: &[u8], i: usize, identifier_found: bool) -> (r: Result<
    (),
    UplinkError,
>)
    requires
        i < input@.len(),
    ensures
        identifier_found <==> r is Ok,
        r matches Err(e) ==> e.input@ == input@ && e.kind == (DecodeError::UnrecognizedTag {
            index: i,
            value: input@[i as int],
        }),
{
    if !identifier_found {
        return Err(
            UplinkError {
                input: slice_to_vec(input),
                kind: DecodeError::UnrecognizedTag { index: i, value: input[i] },
            },
        );
    }
    Ok(())
}

impl Uplink {
    /// Decodes a payload: a sequence of tags, each followed by the number of
    /// payload bytes that the layout table gives for it.
    pub fn deserialize(input: &[u8]) -> (r: Result<Uplink, UplinkError>)
        ensures
            match decode(input@) {
                Ok(u) => r == Ok::<Uplink, UplinkError>(u),
                Err(k) => r matches Err(e) && e.kind == k && e.input@ == input@,
            },
            input@.len() == 0 ==> r == Ok::<Uplink, UplinkError>(empty_uplink()),
            input@.len() > 0 && find_layout(layout_table(), input@[0]) is None ==> r is Err
                && r->Err_0.kind == (DecodeError::UnrecognizedTag { index: 0, value: input@[0] }),
            input@.len() > 0 && find_layout(layout_table(), input@[0]) is Some && input@.len()
                <= find_layout(layout_table(), input@[0])->Some_0.size ==> r is Err
                && r->Err_0.kind == (DecodeError::TruncatedPayload {
                index: 0,
                value: input@[0],
                size: find_layout(layout_table(), input@[0])->Some_0.size,
            }),
    {
        let table = layout();
        let mut output = Uplink::default();
        let mut i: usize = 0;
        while i < input.len()
            invariant
                i <= input@.len(),
                table@ == layout_table(),
                decode(input@) == decode_from(input@, i as int, output),
            decreases input@.len() - i,
        {
            let found = lookup(&table, input[i]);
            if let Err(e) = verify_pattern_matches(input, i, found.is_some()) {
                return Err(e);
            }
            let entry = found.unwrap();
            if let Err(e) = verify_array_length(input, i, entry.size) {
                return Err(e);
            }
            proof {
                lemma_table_entries_ok();
                lemma_find_layout_ok(layout_table(), input@[i as int]);
            }
            if let Err(e) = apply_decoder(entry.bin_to, input, i + 1, &mut output) {
                return Err(e);
            }
            i += entry.size + 1;
        }
        Ok(output)
    }

    /// The temperature in tenths of a degree Celsius.
    pub fn temperature_x10(&self) -> (r: Option<i16>)
        ensures
            r == self.temperature_x10,
    {
        self.temperature_x10
    }

    /// The CO2 concentration in ppm.
    pub fn co2_ppm(&self) -> (r: Option<u16>)
        ensures
            r == self.co2,
    {
        self.co2
    }

    /// The battery level in millivolts.
    pub fn battery_mv(&self) -> (r: Option<u16>)
        ensures
            r == self.battery_mv,
    {
        self.battery_mv
    }

    /// The state of the digital contact.
    pub fn external_digital(&self) -> (r: Option<bool>)
        ensures
            r == self.external_digital,
    {
        self.external_digital
    }

    /// The occupancy state.
    pub fn occupancy(&self) -> (r: Option<Occupancy>)
        ensures
            r == self.occupancy,
    {
        self.occupancy
    }
}

/// Two decode outcomes agree: both records equal under `uplink_eq`, or both
/// the same error.
pub open spec fn same_outcome(a: Result<Uplink, DecodeError>, b: Result<Uplink, DecodeError>) -> bool {
    match (a, b) {
        (Ok(x), Ok(y)) => uplink_eq(x, y),
        (Err(e), Err(f)) => e == f,
        _ => false,
    }
}

/// Decoding the same bytes twice gives records that compare equal, or the
/// same error: the decoder keeps no state between calls.
pub proof fn deserialize_deterministic(a: Seq<u8>, b: Seq<u8>)
    requires
        a == b,
    ensures
        same_outcome(decode(a), decode(b)),
{
}

/// Values less than half a resolution apart are close, and a present value
/// is never close to an absent one.
pub proof fn close_law(a: i32, b: i32, resolution: i32)
    ensures
        2 * (a - b) < resolution && 2 * (b - a) < resolution ==> is_close(
            Some(a),
            Some(b),
            resolution,
        ),
        !is_close(Some(a), None, resolution),
        !is_close(None, Some(b), resolution),
{
}

/// A record with a field present never equals one with that field absent.
pub proof fn present_never_equals_absent(u: Uplink, v: Uplink)
    requires
        u.temperature_x10 is Some && v.temperature_x10 is None || u.co2 is Some && v.co2 is None
            || u.battery_mv is Some && v.battery_mv is None || u.occupancy is Some
            && v.occupancy is None || u.external_digital is Some && v.external_digital is None,
    ensures
        !uplink_eq(u, v),
        !uplink_eq(v, u),
{
}


} // verus!
