//! The frequency scorer: how plausibly a byte histogram, taken over
//! koi8-u code positions, is Russian or Ukrainian text.

use vstd::prelude::*;
use crate::encoding::Encoding;

verus! {

broadcast use vstd::seq_lib::group_to_multiset_ensures;

/// Weight of a koi8 code position, in thousandths of a percent of the
/// letter's share in Russian text.  Printable ASCII gets a small flat
/// weight, positions of no letter get none.  Letters are weighted at their
/// lower-case position, the Ukrainian ones separately.
pub open spec fn weight(b: u8) -> int {
    if 32 <= b <= 126 {
        1
    } else {
        match b {
            207u8 => 11070,
            197u8 => 8500,
            193u8 => 7500,
            201u8 => 7090,
            206u8 => 6700,
            212u8 => 5970,
            211u8 => 4970,
            204u8 => 4960,
            215u8 => 4330,
            210u8 => 4330,
            203u8 => 3300,
            205u8 => 3100,
            196u8 => 3090,
            208u8 => 2470,
            217u8 => 2360,
            213u8 => 2220,
            194u8 => 2010,
            209u8 => 1960,
            216u8 => 1840,
            199u8 => 1720,
            218u8 => 1480,
            222u8 => 1400,
            202u8 => 1210,
            214u8 => 1010,
            200u8 => 950,
            219u8 => 720,
            192u8 => 470,
            195u8 => 390,
            220u8 => 350,
            221u8 => 300,
            198u8 => 210,
            163u8 => 200,
            223u8 => 20,
            164u8 => 300,
            166u8 => 5000,
            167u8 => 300,
            173u8 => 10,
            _ => 0,
        }
    }
}

/// The largest weight of the table.
pub const MAX_WEIGHT: i128 = 11070;

/// The weight table, executable.
fn weight_of(b: u8) -> (r: i128)
    ensures
        r == weight(b),
        0 <= r <= 11070,
{
    if 32 <= b && b <= 126 {
        return 1;
    }
    match b {
        207u8 => 11070,
        197u8 => 8500,
        193u8 => 7500,
        201u8 => 7090,
        206u8 => 6700,
        212u8 => 5970,
        211u8 => 4970,
        204u8 => 4960,
        215u8 => 4330,
        210u8 => 4330,
        203u8 => 3300,
        205u8 => 3100,
        196u8 => 3090,
        208u8 => 2470,
        217u8 => 2360,
        213u8 => 2220,
        194u8 => 2010,
        209u8 => 1960,
        216u8 => 1840,
        199u8 => 1720,
        218u8 => 1480,
        222u8 => 1400,
        202u8 => 1210,
        214u8 => 1010,
        200u8 => 950,
        219u8 => 720,
        192u8 => 470,
        195u8 => 390,
        220u8 => 350,
        221u8 => 300,
        198u8 => 210,
        163u8 => 200,
        223u8 => 20,
        164u8 => 300,
        166u8 => 5000,
        167u8 => 300,
        173u8 => 10,
        _ => 0,
    }
}

/// The position whose weight a koi8 byte is scored with: upper-case
/// Cyrillic letters (225 and up) move to their lower-case position, and
/// the upper-case Ukrainian letters and Ё to theirs.
pub open spec fn fold(b: u8) -> u8 {
    let c: u8 = if b >= 225 { (b - 32) as u8 } else { b };
    if c == 179 || c == 180 || c == 182 || c == 183 || c == 189 {
        (c - 16) as u8
    } else {
        c
    }
}

fn fold_of(b: u8) -> (r: u8)
    ensures
        r == fold(b),
{
    let c: u8 = if b >= 225 { b - 32 } else { b };
    if c == 179 || c == 180 || c == 182 || c == 183 || c == 189 {
        c - 16
    } else {
        c
    }
}

/// What byte value `b`, seen `count` times, adds to the factor: its count
/// times its weight, or ten times its weight taken away when unseen.
pub open spec fn term(count: int, b: u8) -> int {
    (if count == 0 { -10 } else { count }) * weight(fold(b))
}

/// The factor over the first `n` byte values.
pub open spec fn factor_upto(counts: Seq<int>, n: int) -> int
    decreases n,
{
    if n <= 0 {
        0
    } else {
        factor_upto(counts, n - 1) + term(counts[n - 1], (n - 1) as u8)
    }
}

/// The Cyrillic factor of a 256-bucket histogram.
pub open spec fn factor_of(counts: Seq<int>) -> int {
    factor_upto(counts, 256)
}

/// The 256-bucket histogram of `k`.
pub open spec fn histogram(k: Seq<u8>) -> Seq<int> {
    Seq::new(256, |v: int| k.to_multiset().count(v as u8) as int)
}

/// A histogram of koi8-u bytes gathered for one candidate encoding.
#[derive(Debug)]
pub struct CharFrequencies {
    /// The candidate encoding the bytes were decoded from.
    pub encoding: Encoding,
    /// How many bytes were counted.
    pub characters_seen: u64,
    /// How often each byte value was counted.
    pub frequency: Vec<u64>,
}

impl CharFrequencies {
    /// 256 buckets, none above the total.
    pub open spec fn wf(&self) -> bool {
        &&& self.frequency@.len() == 256
        &&& forall|i: int| 0 <= i < 256 ==> #[trigger] self.frequency@[i] <= self.characters_seen
    }

    /// The buckets, as integers.
    pub open spec fn counts(&self) -> Seq<int> {
        self.frequency@.map_values(|x: u64| x as int)
    }

    /// An empty histogram for `encoding`.
    pub fn new(encoding: Encoding) -> (r: CharFrequencies)
        ensures
            r.wf(),
            r.encoding == encoding,
            r.characters_seen == 0,
            forall|i: int| 0 <= i < 256 ==> #[trigger] r.frequency@[i] == 0,
    {
        let mut frequency: Vec<u64> = Vec::new();
        let mut i: usize = 0;
        while i < 256
            invariant
                i <= 256,
                frequency@.len() == i,
                forall|j: int| 0 <= j < i ==> #[trigger] frequency@[j] == 0,
            decreases 256 - i,
        {
            frequency.push(0);
            i = i + 1;
        }
        CharFrequencies { encoding, characters_seen: 0, frequency }
    }

    /// Counts one more byte `ch`.
    pub fn add_character(&mut self, ch: u8)
        requires
            old(self).wf(),
            old(self).characters_seen < u64::MAX,
        ensures
            final(self).wf(),
            final(self).encoding == old(self).encoding,
            final(self).characters_seen == old(self).characters_seen + 1,
            final(self).frequency@ == old(self).frequency@.update(
                ch as int,
                (old(self).frequency@[ch as int] + 1) as u64,
            ),
    {
        let c = self.frequency[ch as usize];
        self.frequency.set(ch as usize, c + 1);
        self.characters_seen = self.characters_seen + 1;
    }

    /// The Cyrillic factor, in thousandths: for each byte value, its weight
    /// at its folded position times its count, or times -10 when unseen.
    pub fn cyrillic_factor(&self) -> (r: i128)
        requires
            self.wf(),
        ensures
            r == factor_of(self.counts()),
    {
        let ghost counts = self.counts();
        let mut factor: i128 = 0;
        let mut i: usize = 0;
        while i < 256
            invariant
                self.wf(),
                counts == self.counts(),
                i <= 256,
                factor == factor_upto(counts, i as int),
                -(i as int) * 0x1_0000_0000_0000_0000 * MAX_WEIGHT <= factor
                    <= (i as int) * 0x1_0000_0000_0000_0000 * MAX_WEIGHT,
            decreases 256 - i,
        {
            let f: u64 = self.frequency[i];
            let w = weight_of(fold_of(i as u8));
            assert(0 <= f * w <= 0x1_0000_0000_0000_0000 * MAX_WEIGHT) by (nonlinear_arith)
                requires
                    0 <= w <= MAX_WEIGHT,
                    0 <= f < 0x1_0000_0000_0000_0000,
            ;
            let t: i128 = if f == 0 { 0 - 10 * w } else { (f as i128) * w };
            assert(-0x1_0000_0000_0000_0000 * MAX_WEIGHT <= t <= 0x1_0000_0000_0000_0000 * MAX_WEIGHT);
            assert(t == term(counts[i as int], i as u8));
            assert(-((i + 1) as int) * 0x1_0000_0000_0000_0000 * MAX_WEIGHT <= factor + t
                <= ((i + 1) as int) * 0x1_0000_0000_0000_0000 * MAX_WEIGHT) by (nonlinear_arith)
                requires
                    -(i as int) * 0x1_0000_0000_0000_0000 * MAX_WEIGHT <= factor
                        <= (i as int) * 0x1_0000_0000_0000_0000 * MAX_WEIGHT,
                    -0x1_0000_0000_0000_0000 * MAX_WEIGHT <= t <= 0x1_0000_0000_0000_0000 * MAX_WEIGHT,
            ;
            factor = factor + t;
            i = i + 1;
        }
        factor
    }
}

/// Counts every byte of `bytes` into a fresh histogram for `encoding`.
pub fn tally(encoding: Encoding, bytes: &[u8]) -> (r: CharFrequencies)
    ensures
        r.wf(),
        r.encoding == encoding,
        r.characters_seen == bytes@.len(),
        r.counts() == histogram(bytes@),
{
    let mut freq = CharFrequencies::new(encoding);
    let mut i: usize = 0;
    assert(bytes@.subrange(0, 0) =~= Seq::<u8>::empty());
    while i < bytes.len()
        invariant
            freq.wf(),
            freq.encoding == encoding,
            i <= bytes@.len(),
            freq.characters_seen == i,
            forall|v: int|
                0 <= v < 256 ==> #[trigger] freq.frequency@[v] == bytes@.subrange(
                    0,
                    i as int,
                ).to_multiset().count(v as u8),
        decreases bytes@.len() - i,
    {
        let ghost prev = bytes@.subrange(0, i as int);
        assert(bytes@.subrange(0, i + 1) =~= prev.push(bytes@[i as int]));
        freq.add_character(bytes[i]);
        i = i + 1;
    }
    assert(bytes@.subrange(0, i as int) =~= bytes@);
    assert(freq.counts() =~= histogram(bytes@));
    freq
}

} // verus!
