//! Render the track lists of a Rob Hubbard dump into patterns.

use vstd::prelude::*;

use crate::module::Pattern;
use crate::module::pattern_view;
use crate::note::Note;
use crate::patternslot::PatternSlot;

verus! {

/// The decoded song structure of one dump: songs point at channels,
/// channels point at pattern tracks.
#[derive(Clone, Debug, PartialEq)]
pub struct PatternHelper {
    /// Player engine revision.
    pub version: usize,
    /// Per song, the channel index of each voice.
    pub songs: Vec<Vec<usize>>,
    /// Per channel, the list of track numbers it plays.
    pub channels: Vec<Vec<u8>>,
    /// The pattern tracks themselves, raw bytes.
    pub tracks: Vec<Vec<u8>>,
}

/// One step forward, capped at the end of the track.
fn bump(i: usize, n: usize) -> (r: usize)
    ensures
        r == (if i < n {
            i + 1
        } else {
            n as int
        }),
        r <= n,
{
    if i < n {
        i + 1
    } else {
        n
    }
}

/// The byte at `i`, or 0 past the end.
fn byte_at(v: &Vec<u8>, i: usize) -> (r: u8)
    ensures
        r == (if i < v@.len() {
            v@[i as int]
        } else {
            0u8
        }),
{
    if i < v.len() {
        v[i]
    } else {
        0
    }
}

impl PatternHelper {
    /// Wrap the decoded song structure.
    pub fn new(version: usize, songs: Vec<Vec<usize>>, channels: Vec<Vec<u8>>, tracks: Vec<Vec<u8>>)
        -> (r: PatternHelper)
        ensures
            r.version == version,
            r.songs == songs,
            r.channels == channels,
            r.tracks == tracks,
    {
        PatternHelper { version, songs, channels, tracks }
    }

    /// Decode one raw track into cells: each step carries an optional
    /// instrument or portamento byte, a note byte, a release flag and a
    /// hold length. The walk reads zeros past the end of the track and
    /// stops at the 0xFF terminator.
    pub fn get_track(&self, source: &Vec<u8>) -> (r: Vec<PatternSlot>)
        ensures
            r@.len() <= 33 * (source@.len() + 1),
    {
        let mut track: Vec<PatternSlot> = Vec::new();
        let mut index: usize = 0;
        let mut last_instr: u8 = 0;
        let n = source.len();
        while index < n && source[index] != 255
            invariant
                n == source@.len(),
                index <= n,
                track@.len() <= 33 * (index + 1),
            decreases n - index,
        {
            let mut current = PatternSlot::default();
            let head = source[index];
            proof {
                let hh = head;
                assert(hh & 0b0001_1111 < 32) by (bit_vector);
            }
            let length = head & 0b0001_1111;
            let release = head & 0b0010_0000 == 0;
            let append = head & 0b0100_0000 == 0;
            let instr_or_portamento = head & 0b1000_0000 != 0;
            let ghost index0 = index;
            if append {
                index = bump(index, n);
                if instr_or_portamento {
                    let b = byte_at(source, index);
                    proof {
                        let bb = b;
                        assert(bb & 0b0111_1111 <= 127) by (bit_vector);
                    }
                    if self.version == 10 {
                        if b & 0b1000_0000 == 0 {
                            current.instrument = 1 + (b & 0b0111_1111);
                            last_instr = current.instrument;
                        } else {
                            let p = b & 0b0111_1110;
                            if p != 0 {
                                current.effect_parameter = p / 2;
                                if b & 1 == 0 {
                                    current.effect_type = 1;
                                } else {
                                    current.effect_type = 2;
                                }
                            }
                        }
                    } else if self.version == 15 {
                        if b & 0b1000_0000 == 0 {
                            current.instrument = 1 + (b & 0b0111_1111);
                            last_instr = current.instrument;
                        }
                    } else {
                        if b & 0b1000_0000 == 0 {
                            current.instrument = 1 + (b & 0b0111_1111);
                            last_instr = current.instrument;
                        } else {
                            proof {
                                let bw = b as u16;
                                assert(bw & 0b0011_1111 <= 63) by (bit_vector);
                            }
                            let p: u16 = ((b as u16 & 0b0011_1111) * 256) + byte_at(
                                source,
                                bump(index, n),
                            ) as u16;
                            index = bump(index, n);
                            if p != 0 {
                                current.effect_parameter = (p % 256) as u8;
                                if byte_at(source, index) & 0b0100_0000 == 0 {
                                    current.effect_type = 1;
                                } else {
                                    current.effect_type = 2;
                                }
                            }
                        }
                    }
                    index = bump(index, n);
                }
                // correction of a table overflow in the original player
                let raw = byte_at(source, index);
                proof {
                    let rr = raw;
                    assert(rr & 0b0111_1111 <= 127) by (bit_vector);
                    assert((rr & 0b0111_1111) & 0b0011_1111 <= 63) by (bit_vector);
                }
                let nb = raw & 0b0111_1111;
                let note: u8 = if nb > 96 {
                    if nb == 96 {
                        0
                    } else if nb == 97 {
                        0
                    } else if nb == 98 {
                        12
                    } else if nb == 100 {
                        3
                    } else if nb == 104 {
                        65
                    } else if nb == 105 {
                        65
                    } else if nb == 107 {
                        6
                    } else if nb == 127 {
                        0
                    } else {
                        nb & 0b0011_1111
                    }
                } else {
                    nb
                };
                current.note = match Note::try_from_value(1 + note) {
                    Some(x) => x,
                    Option::None => Note::Empty,
                };
            }
            if release {
                if current.note.is_none() {
                    current.volume = 0x10;
                } else {
                    current.volume = 0x50;
                }
                current.instrument = last_instr;
            }
            index = bump(index, n);
            track.push(current);
            if length != 0 {
                let hold = PatternSlot::default();
                let mut h: usize = 0;
                while h < length as usize
                    invariant
                        h <= length as usize,
                        length < 32,
                        track@.len() <= 33 * (index0 + 1) + 1 + h,
                        index0 <= index,
                    decreases length - h,
                {
                    track.push(hold);
                    h = h + 1;
                }
            }
            proof {
                assert(track@.len() <= 33 * (index0 + 1) + 33);
            }
        }
        track
    }

    /// Decode every raw track.
    pub fn get_tracks(&self) -> (r: Vec<Vec<PatternSlot>>)
        ensures
            r@.len() == self.tracks@.len(),
    {
        let mut tracks: Vec<Vec<PatternSlot>> = Vec::new();
        let n = self.tracks.len();
        let mut i: usize = 0;
        while i < n
            invariant
                n == self.tracks@.len(),
                i <= n,
                tracks@.len() == i,
            decreases n - i,
        {
            let t = self.get_track(&self.tracks[i]);
            tracks.push(t);
            i = i + 1;
        }
        tracks
    }

    /// The channel lists a song plays, one per voice; a voice whose
    /// channel index is out of range plays an empty list.
    pub fn get_pattern_order(&self, song_number: usize) -> (r: Vec<Vec<u8>>)
        requires
            song_number < self.songs@.len(),
        ensures
            r@.len() == self.songs@[song_number as int]@.len(),
    {
        let mut pattern_order: Vec<Vec<u8>> = Vec::new();
        let song: &Vec<usize> = &self.songs[song_number];
        let n = song.len();
        let mut i: usize = 0;
        while i < n
            invariant
                n == song@.len(),
                i <= n,
                pattern_order@.len() == i,
            decreases n - i,
        {
            let idx = song[i];
            if idx < self.channels.len() {
                let ch = self.channels[idx].clone();
                pattern_order.push(ch);
            } else {
                pattern_order.push(Vec::new());
            }
            i = i + 1;
        }
        pattern_order
    }

    /// Render one song's voices into patterns by walking every voice's
    /// channel list in step. The walk is cut off after a generous fuel
    /// bound so that pathological channel lists cannot spin forever; real
    /// dumps end far earlier of their own accord.
    pub fn get_patterns(&self, song_number: usize) -> (r: Vec<Pattern>)
        requires
            song_number < self.songs@.len(),
        ensures
            forall|i: int, j: int|
                0 <= i < r@.len() && 0 <= j < r@[i]@.len() ==> (#[trigger] r@[i]@[j])@.len()
                    <= self.songs@[song_number as int]@.len(),
    {
        let tracks = self.get_tracks();
        let pattern_order = self.get_pattern_order(song_number);
        let po_len = pattern_order.len();
        let ghost width = pattern_order@.len() as int;
        proof {
            assert(width == self.songs@[song_number as int]@.len());
        }
        let mut patterns: Vec<Pattern> = Vec::new();
        if po_len == 0 {
            return patterns;
        }
        let mut i_n: Vec<usize> = Vec::new();
        let mut z: usize = 0;
        while z < po_len
            invariant
                z <= po_len,
                i_n@.len() == z,
                forall|k: int| 0 <= k < z ==> (#[trigger] i_n@[k]) == 0,
                patterns@.len() == 0,
            decreases po_len - z,
        {
            i_n.push(0);
            z = z + 1;
        }
        // every voice must have a nonempty channel list to walk
        let mut z2: usize = 0;
        while z2 < po_len
            invariant
                z2 <= po_len,
                po_len == pattern_order@.len(),
                forall|k: int| 0 <= k < z2 ==> (#[trigger] pattern_order@[k])@.len() > 0,
                forall|k: int| 0 <= k < i_n@.len() ==> (#[trigger] i_n@[k]) == 0,
                i_n@.len() == po_len,
                patterns@.len() == 0,
            decreases po_len - z2,
        {
            if pattern_order[z2].len() == 0 {
                return patterns;
            }
            z2 = z2 + 1;
        }
        let mut fuel: u32 = 1000000;
        while fuel > 0
            invariant
                fuel <= 1000000,
                po_len == pattern_order@.len(),
                width == pattern_order@.len() as int,
                song_number < self.songs@.len(),
                width <= self.songs@[song_number as int]@.len(),
                po_len > 0,
                i_n@.len() == po_len,
                forall|k: int| 0 <= k < po_len ==> (#[trigger] pattern_order@[k])@.len() > 0,
                forall|k: int|
                    0 <= k < po_len ==> (#[trigger] i_n@[k]) < pattern_order@[k]@.len(),
                forall|a: int, b: int|
                    0 <= a < patterns@.len() && 0 <= b < patterns@[a]@.len() ==> (
                    #[trigger] patterns@[a]@[b])@.len() <= width,
            decreases fuel,
        {
            let ghost fuel_enter = fuel;
            let mut trk_ix: Vec<usize> = Vec::new();
            let mut k: usize = 0;
            while k < po_len
                invariant
                    po_len == pattern_order@.len(),
                    i_n@.len() == po_len,
                    forall|t: int|
                        0 <= t < po_len ==> (#[trigger] i_n@[t]) < pattern_order@[t]@.len(),
                    k <= po_len,
                    trk_ix@.len() == k,
                decreases po_len - k,
            {
                let ord: &Vec<u8> = &pattern_order[k];
                trk_ix.push(ord[i_n[k]] as usize);
                k = k + 1;
            }
            // lengths of the tracks in play
            let mut trks_total_len: usize = 0;
            let mut k2: usize = 0;
            while k2 < po_len
                invariant
                    po_len == trk_ix@.len(),
                    k2 <= po_len,
                decreases po_len - k2,
            {
                let ti = trk_ix[k2];
                let l = if ti < tracks.len() {
                    tracks[ti].len()
                } else {
                    0
                };
                if l > trks_total_len {
                    trks_total_len = l;
                }
                k2 = k2 + 1;
            }
            let mut pattern: Vec<Vec<PatternSlot>> = Vec::new();
            let mut j: Vec<usize> = Vec::new();
            let mut z3: usize = 0;
            while z3 < po_len
                invariant
                    z3 <= po_len,
                    j@.len() == z3,
                    forall|k: int| 0 <= k < z3 ==> (#[trigger] j@[k]) == 0,
                decreases po_len - z3,
            {
                j.push(0);
                z3 = z3 + 1;
            }
            while trks_total_len != 0 && fuel > 0
                invariant
                    fuel <= fuel_enter <= 1000000,
                    forall|t: int| 0 <= t < j@.len() ==> (#[trigger] j@[t]) as int <= 1000000 - fuel,
                    po_len == pattern_order@.len(),
                width == pattern_order@.len() as int,
                song_number < self.songs@.len(),
                width <= self.songs@[song_number as int]@.len(),
                    po_len > 0,
                    i_n@.len() == po_len,
                    j@.len() == po_len,
                    trk_ix@.len() == po_len,
                    forall|t: int|
                        0 <= t < po_len ==> (#[trigger] pattern_order@[t])@.len() > 0,
                    forall|t: int|
                        0 <= t < po_len ==> (#[trigger] i_n@[t]) < pattern_order@[t]@.len(),
                    forall|a: int, b: int|
                        0 <= a < patterns@.len() && 0 <= b < patterns@[a]@.len() ==> (
                        #[trigger] patterns@[a]@[b])@.len() <= width,
                    forall|b: int|
                        0 <= b < pattern@.len() ==> (#[trigger] pattern@[b])@.len() <= width,
                decreases fuel,
            {
                fuel = fuel - 1;
                let mut line: Vec<PatternSlot> = Vec::new();
                let mut k3: usize = 0;
                while k3 < po_len
                    invariant
                        trks_total_len >= 1,
                        fuel < fuel_enter <= 1000000,
                        forall|t: int|
                            0 <= t < k3 && t < j@.len() ==> (#[trigger] j@[t]) as int <= 1000000
                                - fuel,
                        forall|t: int|
                            k3 <= t < j@.len() ==> (#[trigger] j@[t]) as int + 1 <= 1000000 - fuel,
                        po_len == pattern_order@.len(),
                width == pattern_order@.len() as int,
                song_number < self.songs@.len(),
                width <= self.songs@[song_number as int]@.len(),
                        i_n@.len() == po_len,
                        j@.len() == po_len,
                        trk_ix@.len() == po_len,
                        forall|t: int|
                            0 <= t < po_len ==> (#[trigger] pattern_order@[t])@.len() > 0,
                        forall|t: int|
                            0 <= t < po_len ==> (#[trigger] i_n@[t]) < pattern_order@[t]@.len(),
                        forall|b: int|
                            0 <= b < pattern@.len() ==> (#[trigger] pattern@[b])@.len() <= width,
                        forall|a: int, b: int|
                            0 <= a < patterns@.len() && 0 <= b < patterns@[a]@.len() ==> (
                            #[trigger] patterns@[a]@[b])@.len() <= width,
                        k3 <= po_len,
                        line@.len() <= k3,
                    decreases po_len - k3,
                {
                    let ti = trk_ix[k3];
                    let tlen = if ti < tracks.len() {
                        tracks[ti].len()
                    } else {
                        0
                    };
                    if j[k3] >= tlen {
                        let ord_len = pattern_order[k3].len();
                        let ni = i_n[k3] + 1;
                        if ni >= ord_len {
                            i_n.set(k3, 0);
                        } else {
                            if pattern_order[k3][ni] == 254 {
                                // the end marker inside a channel list ends the song
                                pattern.push(line);
                                patterns.push(pattern);
                                return patterns;
                            }
                            i_n.set(k3, ni);
                        }
                        j.set(k3, 0);
                        let nti = pattern_order[k3][i_n[k3]] as usize;
                        trk_ix.set(k3, nti);
                        let ntlen = if nti < tracks.len() {
                            tracks[nti].len()
                        } else {
                            0
                        };
                        if ntlen > trks_total_len {
                            trks_total_len = ntlen;
                        }
                    }
                    let ti2 = trk_ix[k3];
                    let cell = if ti2 < tracks.len() && j[k3] < tracks[ti2].len() {
                        tracks[ti2][j[k3]]
                    } else {
                        PatternSlot::default()
                    };
                    line.push(cell);
                    j.set(k3, j[k3] + 1);
                    k3 = k3 + 1;
                }
                trks_total_len = trks_total_len - 1;
                pattern.push(line);
            }
            if fuel == 0 {
                patterns.push(pattern);
                return patterns;
            }
            patterns.push(pattern);
            let mut all_zero = true;
            let mut k4: usize = 0;
            while k4 < po_len
                invariant
                    po_len == pattern_order@.len(),
                    width == pattern_order@.len() as int,
                    song_number < self.songs@.len(),
                    width <= self.songs@[song_number as int]@.len(),
                    i_n@.len() == po_len,
                    k4 <= po_len,
                    forall|t: int|
                        0 <= t < po_len ==> (#[trigger] pattern_order@[t])@.len() > 0,
                    forall|t: int|
                        0 <= t < po_len ==> (#[trigger] i_n@[t]) < pattern_order@[t]@.len(),
                    forall|a: int, b: int|
                        0 <= a < patterns@.len() && 0 <= b < patterns@[a]@.len() ==> (
                        #[trigger] patterns@[a]@[b])@.len() <= width,
                decreases po_len - k4,
            {
                let ord_len = pattern_order[k4].len();
                let ni = i_n[k4] + 1;
                if ni >= ord_len {
                    i_n.set(k4, 0);
                } else {
                    if pattern_order[k4][ni] == 254 {
                        return patterns;
                    }
                    i_n.set(k4, ni);
                }
                k4 = k4 + 1;
            }
            let mut k5: usize = 0;
            while k5 < po_len
                invariant
                    po_len == i_n@.len(),
                    k5 <= po_len,
                    width == pattern_order@.len() as int,
                    song_number < self.songs@.len(),
                    width <= self.songs@[song_number as int]@.len(),
                    forall|a: int, b: int|
                        0 <= a < patterns@.len() && 0 <= b < patterns@[a]@.len() ==> (
                        #[trigger] patterns@[a]@[b])@.len() <= width,
                decreases po_len - k5,
            {
                if i_n[k5] != 0 {
                    all_zero = false;
                }
                k5 = k5 + 1;
            }
            if all_zero {
                return patterns;
            }
            fuel = fuel - 1;
        }
        patterns
    }

    /// De-duplicate identical patterns: the result holds each distinct
    /// pattern once, and the returned order plays the originals through
    /// indices into it.
    pub fn cleanup_patterns(source: &Vec<Pattern>) -> (r: (Vec<Pattern>, Vec<usize>))
        ensures
            ({
                let (dest, order) = r;
                &&& order@.len() == source@.len()
                &&& forall|k: int|
                    0 <= k < order@.len() ==> (#[trigger] order@[k]) < dest@.len()
                        && pattern_view(dest@[order@[k] as int]) == pattern_view(source@[k])
            }),
    {
        let mut dest: Vec<Pattern> = Vec::new();
        let mut order: Vec<usize> = Vec::new();
        let n = source.len();
        let mut i: usize = 0;
        while i < n
            invariant
                n == source@.len(),
                i <= n,
                order@.len() == i,
                forall|k: int|
                    0 <= k < i ==> (#[trigger] order@[k]) < dest@.len() && pattern_view(
                        dest@[order@[k] as int],
                    ) == pattern_view(source@[k]),
            decreases n - i,
        {
            let p: &Pattern = &source[i];
            let mut found: usize = dest.len();
            let mut d: usize = 0;
            while d < dest.len()
                invariant
                    d <= dest@.len(),
                    found == dest@.len() || (found < dest@.len() && pattern_view(
                        dest@[found as int],
                    ) == pattern_view(*p)),
                decreases dest@.len() - d,
            {
                if patterns_eq(&dest[d], p) {
                    found = d;
                    break ;
                }
                d = d + 1;
            }
            if found < dest.len() {
                order.push(found);
            } else {
                let copy = clone_pattern(p);
                let new_idx = dest.len();
                dest.push(copy);
                order.push(new_idx);
            }
            i = i + 1;
        }
        (dest, order)
    }

    /// Split every pattern longer than 256 rows into chunks of at most
    /// 256 rows, keeping all rows in order.
    #[verifier::loop_isolation(false)]
    pub fn split_large_patterns(patterns: &mut Vec<Pattern>)
        ensures
            forall|i: int|
                0 <= i < final (patterns)@.len() ==> (#[trigger] final (patterns)@[i])@.len()
                    <= 256,
    {
        let mut result: Vec<Pattern> = Vec::new();
        let n = patterns.len();
        let mut i: usize = 0;
        while i < n
            invariant
                n == patterns@.len(),
                i <= n,
                forall|k: int|
                    0 <= k < result@.len() ==> (#[trigger] result@[k])@.len() <= 256,
            decreases n - i,
        {
            let p: &Pattern = &patterns[i];
            let len = p.len();
            if len > 256 {
                let mut start: usize = 0;
                while start < len
                    invariant
                        len == p@.len(),
                        start <= len,
                        forall|k: int|
                            0 <= k < result@.len() ==> (#[trigger] result@[k])@.len() <= 256,
                    decreases len - start,
                {
                    let end = if len - start > 256 {
                        start + 256
                    } else {
                        len
                    };
                    let mut chunk: Pattern = Vec::new();
                    let mut c: usize = start;
                    while c < end
                        invariant
                            start <= c <= end <= p@.len(),
                            end - start <= 256,
                            chunk@.len() == c - start,
                            forall|k: int|
                                0 <= k < result@.len() ==> (#[trigger] result@[k])@.len() <= 256,
                        decreases end - c,
                    {
                        let row = p[c].clone();
                        chunk.push(row);
                        c = c + 1;
                    }
                    result.push(chunk);
                    start = end;
                }
            } else {
                let copy = clone_pattern(p);
                proof {
                    assert(pattern_view(copy).len() == copy@.len());
                    assert(copy@.len() <= 256);
                }
                result.push(copy);
            }
            i = i + 1;
        }
        *patterns = result;
    }
}

/// Whether two patterns carry the same cells.
fn patterns_eq(a: &Pattern, b: &Pattern) -> (r: bool)
    ensures
        r == (pattern_view(*a) == pattern_view(*b)),
{
    if a.len() != b.len() {
        proof {
            assert(pattern_view(*a).len() != pattern_view(*b).len());
        }
        return false;
    }
    let n = a.len();
    let mut i: usize = 0;
    while i < n
        invariant
            n == a@.len() == b@.len(),
            i <= n,
            forall|k: int| 0 <= k < i ==> (#[trigger] a@[k])@ == b@[k]@,
        decreases n - i,
    {
        let ra: &Vec<PatternSlot> = &a[i];
        let rb: &Vec<PatternSlot> = &b[i];
        if ra.len() != rb.len() {
            proof {
                assert(pattern_view(*a)[i as int].len() != pattern_view(*b)[i as int].len());
            }
            return false;
        }
        let m = ra.len();
        let mut jj: usize = 0;
        while jj < m
            invariant
                n == a@.len() == b@.len(),
                i < n,
                ra == &a@[i as int],
                rb == &b@[i as int],
                m == ra@.len() == rb@.len(),
                jj <= m,
                forall|k: int| 0 <= k < jj ==> ra@[k] == rb@[k],
            decreases m - jj,
        {
            if ra[jj] != rb[jj] {
                proof {
                    assert(pattern_view(*a)[i as int][jj as int] != pattern_view(
                        *b,
                    )[i as int][jj as int]);
                }
                return false;
            }
            jj = jj + 1;
        }
        proof {
            assert(ra@ =~= rb@);
        }
        i = i + 1;
    }
    proof {
        assert(pattern_view(*a) =~= pattern_view(*b));
    }
    true
}

/// A row-for-row copy of a pattern.
fn clone_pattern(p: &Pattern) -> (r: Pattern)
    ensures
        pattern_view(r) == pattern_view(*p),
{
    let mut out: Pattern = Vec::new();
    let n = p.len();
    let mut i: usize = 0;
    while i < n
        invariant
            n == p@.len(),
            i <= n,
            out@.len() == i,
            forall|k: int| 0 <= k < i ==> (#[trigger] out@[k])@ == p@[k]@,
        decreases n - i,
    {
        let row = p[i].clone();
        assert(row@ =~= p@[i as int]@);
        out.push(row);
        i = i + 1;
    }
    proof {
        assert(pattern_view(out) =~= pattern_view(*p));
    }
    out
}

} // verus!
