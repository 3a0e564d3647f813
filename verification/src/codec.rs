use vstd::prelude::*;

use crate::digits::all_digits;
use crate::digits::is_digit_char;
use crate::digits::lemma_dec_digits;
use crate::digits::lemma_parse_dec_of_dec;
use crate::digits::spec_dec;
use crate::digits::spec_parse_dec;
use crate::digits::parse_u32;
use crate::digits::u32_to_string;
use crate::model::Drone;
use crate::model::DroneData;
use crate::model::Location;
use crate::model::LocationData;

verus! {

/// The way a fleet text can fail to be read back.
#[derive(Debug, PartialEq, Eq, Structural)]
pub enum FleetParseError {
    InvalidFormat,
}

// ---------------------------------------------------------------------------
// Scanning
// ---------------------------------------------------------------------------
/// The index of the first occurrence of `c` in `s`, or `s.len()` when `c`
/// does not occur.
pub open spec fn idx_of(s: Seq<char>, c: char) -> int
    decreases s.len(),
{
    if s.len() == 0 {
        0
    } else if s[0] == c {
        0
    } else {
        1 + idx_of(s.skip(1), c)
    }
}

/// What `idx_of` returns: an index within bounds, pointing at `c` when `c`
/// occurs, with no occurrence before it.
pub proof fn lemma_idx_of_props(s: Seq<char>, c: char)
    ensures
        0 <= idx_of(s, c) <= s.len(),
        idx_of(s, c) < s.len() ==> s[idx_of(s, c)] == c,
        forall|j: int| 0 <= j < idx_of(s, c) ==> s[j] != c,
    decreases s.len(),
{
    if s.len() != 0 && s[0] != c {
        lemma_idx_of_props(s.skip(1), c);
        assert forall|j: int| 0 <= j < idx_of(s, c) implies s[j] != c by {
            if j > 0 {
                assert(s.skip(1)[j - 1] == s[j]);
            }
        }
    }
}

/// `idx_of` is determined by those properties: an in-bounds position with no
/// earlier occurrence, holding `c` unless it is the length, is the index.
pub proof fn lemma_idx_of_is(s: Seq<char>, c: char, i: int)
    requires
        0 <= i <= s.len(),
        forall|j: int| 0 <= j < i ==> s[j] != c,
        i < s.len() ==> s[i] == c,
    ensures
        idx_of(s, c) == i,
{
    lemma_idx_of_props(s, c);
    let x = idx_of(s, c);
    if x < i {
        assert(s[x] == c);
    } else if i < x {
        assert(s[i] != c);
    }
}

// ---------------------------------------------------------------------------
// Well-formed record text
// ---------------------------------------------------------------------------
/// Text that can stand inside one record field: free of the record separator
/// and of line breaks.
pub open spec fn plain_text(s: Seq<char>) -> bool {
    forall|i: int| 0 <= i < s.len() ==> #[trigger] s[i] != ',' && s[i] != '\n'
}

/// A drone whose text fields fit the record format: the model additionally
/// holds no opening parenthesis, which the format uses to find the energy
/// field.
pub open spec fn wf_drone(d: DroneData) -> bool {
    &&& plain_text(d.model)
    &&& forall|i: int| 0 <= i < d.model.len() ==> #[trigger] d.model[i] != '('
    &&& plain_text(d.location.caption)
}

pub open spec fn wf_fleet(ds: Seq<DroneData>) -> bool {
    forall|k: int| 0 <= k < ds.len() ==> wf_drone(#[trigger] ds[k])
}

/// The same drone under another id.
pub open spec fn with_id(d: DroneData, id: u32) -> DroneData {
    DroneData {
        id: id,
        model: d.model,
        energy_level: d.energy_level,
        location: d.location,
        is_alive: d.is_alive,
    }
}

/// Every drone's id replaced by its position, as `load` numbers a batch.
pub open spec fn reindex(ds: Seq<DroneData>) -> Seq<DroneData> {
    Seq::new(ds.len(), |i: int| with_id(ds[i], i as u32))
}

// ---------------------------------------------------------------------------
// Rendering
// ---------------------------------------------------------------------------
/// The model-and-energy field of a record.
pub open spec fn head_part(d: DroneData) -> Seq<char> {
    d.model + " ("@ + spec_dec(d.energy_level as nat) + "%)"@
}

/// The location field of a record.
pub open spec fn loc_part(l: LocationData) -> Seq<char> {
    "("@ + spec_dec(l.x as nat) + ":"@ + spec_dec(l.y as nat) + ":"@ + spec_dec(l.z as nat)
        + ")-"@ + l.caption
}

/// The liveness field of a record.
pub open spec fn status_part(alive: bool) -> Seq<char> {
    if alive {
        "alive"@
    } else {
        "dead"@
    }
}

/// One drone as one record: the three fields joined by commas.
pub open spec fn spec_render_drone(d: DroneData) -> Seq<char> {
    head_part(d) + ","@ + loc_part(d.location) + ","@ + status_part(d.is_alive)
}

/// The whole fleet: one record per line, each line newline-terminated.
pub open spec fn spec_render_fleet(ds: Seq<DroneData>) -> Seq<char>
    decreases ds.len(),
{
    if ds.len() == 0 {
        Seq::<char>::empty()
    } else {
        spec_render_drone(ds[0]) + "\n"@ + spec_render_fleet(ds.skip(1))
    }
}

// ---------------------------------------------------------------------------
// Parsing
// ---------------------------------------------------------------------------
/// Reads the model-and-energy field: the model is the text before the
/// first opening parenthesis, the digits inside `(..%)` are the energy.
pub open spec fn spec_parse_head(p0: Seq<char>) -> Option<(Seq<char>, u32)> {
    let i = idx_of(p0, '(');
    if 1 <= i && i + 3 <= p0.len() && p0[i - 1] == ' ' && p0[p0.len() - 2] == '%' && p0[p0.len()
        - 1] == ')' {
        let ds = p0.subrange(i + 1, p0.len() - 2);
        if ds.len() >= 1 && all_digits(ds) && spec_parse_dec(ds) <= u32::MAX {
            Some((p0.subrange(0, i - 1), spec_parse_dec(ds) as u32))
        } else {
            None
        }
    } else {
        None
    }
}

/// Reads the location field `(x:y:z)-caption`.
pub open spec fn spec_parse_location(p1: Seq<char>) -> Option<LocationData> {
    let r = idx_of(p1, ')');
    if p1.len() >= 1 && p1[0] == '(' && 1 <= r && r + 2 <= p1.len() && p1[r + 1] == '-' {
        let inner = p1.subrange(1, r);
        let j1 = idx_of(inner, ':');
        if j1 < inner.len() {
            let xd = inner.subrange(0, j1);
            let rest = inner.subrange(j1 + 1, inner.len() as int);
            let j2 = idx_of(rest, ':');
            if j2 < rest.len() {
                let yd = rest.subrange(0, j2);
                let zd = rest.subrange(j2 + 1, rest.len() as int);
                if xd.len() >= 1 && all_digits(xd) && spec_parse_dec(xd) <= u32::MAX && yd.len()
                    >= 1 && all_digits(yd) && spec_parse_dec(yd) <= u32::MAX && zd.len() >= 1
                    && all_digits(zd) && spec_parse_dec(zd) <= u32::MAX {
                    Some(
                        LocationData {
                            x: spec_parse_dec(xd) as u32,
                            y: spec_parse_dec(yd) as u32,
                            z: spec_parse_dec(zd) as u32,
                            caption: p1.subrange(r + 2, p1.len() as int),
                        },
                    )
                } else {
                    None
                }
            } else {
                None
            }
        } else {
            None
        }
    } else {
        None
    }
}

/// Reads the liveness field.
pub open spec fn spec_parse_status(p2: Seq<char>) -> Option<bool> {
    if p2 == "alive"@ {
        Some(true)
    } else if p2 == "dead"@ {
        Some(false)
    } else {
        None
    }
}

/// Reads one record: three comma-separated fields; the id is left at zero
/// for the caller to assign.
pub open spec fn spec_parse_line(s: Seq<char>) -> Option<DroneData> {
    let i1 = idx_of(s, ',');
    if i1 < s.len() {
        let rest = s.subrange(i1 + 1, s.len() as int);
        let i2 = idx_of(rest, ',');
        if i2 < rest.len() {
            let p0 = s.subrange(0, i1);
            let p1 = rest.subrange(0, i2);
            let p2 = rest.subrange(i2 + 1, rest.len() as int);
            if spec_parse_head(p0) is Some && spec_parse_location(p1) is Some
                && spec_parse_status(p2) is Some {
                let (model, energy) = spec_parse_head(p0)->Some_0;
                Some(
                    DroneData {
                        id: 0,
                        model: model,
                        energy_level: energy,
                        location: spec_parse_location(p1)->Some_0,
                        is_alive: spec_parse_status(p2)->Some_0,
                    },
                )
            } else {
                None
            }
        } else {
            None
        }
    } else {
        None
    }
}

/// Reads newline-terminated records until the text runs out; any malformed
/// line, or text after the last newline, fails the whole read.
pub open spec fn spec_parse_lines(s: Seq<char>) -> Option<Seq<DroneData>>
    decreases s.len(),
{
    if s.len() == 0 {
        Some(Seq::<DroneData>::empty())
    } else {
        let i = idx_of(s, '\n');
        if 0 <= i < s.len() {
            if spec_parse_line(s.subrange(0, i)) is Some && spec_parse_lines(
                s.subrange(i + 1, s.len() as int),
            ) is Some {
                Some(
                    seq![spec_parse_line(s.subrange(0, i))->Some_0] + spec_parse_lines(
                        s.subrange(i + 1, s.len() as int),
                    )->Some_0,
                )
            } else {
                None
            }
        } else {
            None
        }
    }
}

/// Reads a whole fleet back: the records in order, each given its position
/// as id, as `load` numbers a freshly loaded fleet.
pub open spec fn spec_parse_fleet(s: Seq<char>) -> Option<Seq<DroneData>> {
    match spec_parse_lines(s) {
        Some(ds) => if ds.len() <= u32::MAX {
            Some(reindex(ds))
        } else {
            None
        },
        None => None,
    }
}

// ---------------------------------------------------------------------------
// The round trip
// ---------------------------------------------------------------------------
/// A digit character is none of the characters the record format uses as
/// delimiters.
proof fn lemma_digits_no_special(s: Seq<char>)
    requires
        all_digits(s),
    ensures
        forall|i: int|
            0 <= i < s.len() ==> #[trigger] s[i] != ',' && s[i] != '(' && s[i] != ')' && s[i]
                != ':' && s[i] != '%' && s[i] != '-' && s[i] != '\n' && s[i] != ' ',
{
    assert forall|i: int|
        0 <= i < s.len() implies #[trigger] s[i] != ',' && s[i] != '(' && s[i] != ')' && s[i]
        != ':' && s[i] != '%' && s[i] != '-' && s[i] != '\n' && s[i] != ' ' by {
        assert(is_digit_char(s[i]));
    }
}

/// Reading back the model-and-energy field of a rendered record gives the
/// model and energy it was rendered from.
proof fn lemma_parse_head_of_render(d: DroneData)
    requires
        wf_drone(d),
    ensures
        spec_parse_head(head_part(d)) == Some((d.model, d.energy_level)),
{
    reveal_strlit(" (");
    reveal_strlit("%)");
    let p0 = head_part(d);
    let e = d.energy_level as nat;
    lemma_dec_digits(e);
    lemma_parse_dec_of_dec(e);
    lemma_digits_no_special(spec_dec(e));
    let m = d.model.len() as int;
    let k = spec_dec(e).len() as int;
    assert(p0.len() == m + k + 4);
    assert(forall|j: int| 0 <= j < m ==> p0[j] == d.model[j]);
    assert(p0[m] == ' ');
    assert(p0[m + 1] == '(');
    assert(forall|j: int| 0 <= j < k ==> p0[m + 2 + j] == spec_dec(e)[j]);
    assert(p0[m + k + 2] == '%');
    assert(p0[m + k + 3] == ')');
    lemma_idx_of_is(p0, '(', m + 1);
    assert(p0.subrange(m + 2, p0.len() - 2) =~= spec_dec(e));
    assert(p0.subrange(0, m) =~= d.model);
}

/// Reading back the location field of a rendered record gives the location
/// it was rendered from.
proof fn lemma_parse_location_of_render(l: LocationData)
    requires
        plain_text(l.caption),
    ensures
        spec_parse_location(loc_part(l)) == Some(l),
{
    reveal_strlit("(");
    reveal_strlit(":");
    reveal_strlit(")-");
    let p1 = loc_part(l);
    let x = l.x as nat;
    let y = l.y as nat;
    let z = l.z as nat;
    lemma_dec_digits(x);
    lemma_dec_digits(y);
    lemma_dec_digits(z);
    lemma_parse_dec_of_dec(x);
    lemma_parse_dec_of_dec(y);
    lemma_parse_dec_of_dec(z);
    lemma_digits_no_special(spec_dec(x));
    lemma_digits_no_special(spec_dec(y));
    lemma_digits_no_special(spec_dec(z));
    let a = spec_dec(x).len() as int;
    let b = spec_dec(y).len() as int;
    let c = spec_dec(z).len() as int;
    let r = 1 + a + 1 + b + 1 + c;
    assert(p1.len() == r + 2 + l.caption.len());
    assert(p1[0] == '(');
    assert(forall|j: int| 0 <= j < a ==> p1[1 + j] == spec_dec(x)[j]);
    assert(p1[1 + a] == ':');
    assert(forall|j: int| 0 <= j < b ==> p1[2 + a + j] == spec_dec(y)[j]);
    assert(p1[2 + a + b] == ':');
    assert(forall|j: int| 0 <= j < c ==> p1[3 + a + b + j] == spec_dec(z)[j]);
    assert(p1[r] == ')');
    assert(p1[r + 1] == '-');
    assert(forall|j: int| 0 <= j < l.caption.len() ==> p1[r + 2 + j] == l.caption[j]);
    lemma_idx_of_is(p1, ')', r);
    let inner = p1.subrange(1, r);
    assert(inner =~= spec_dec(x) + ":"@ + spec_dec(y) + ":"@ + spec_dec(z));
    assert(forall|j: int| 0 <= j < a ==> inner[j] == spec_dec(x)[j]);
    assert(inner[a] == ':');
    lemma_idx_of_is(inner, ':', a);
    assert(inner.subrange(0, a) =~= spec_dec(x));
    let rest = inner.subrange(a + 1, inner.len() as int);
    assert(rest =~= spec_dec(y) + ":"@ + spec_dec(z));
    assert(forall|j: int| 0 <= j < b ==> rest[j] == spec_dec(y)[j]);
    assert(rest[b] == ':');
    lemma_idx_of_is(rest, ':', b);
    assert(rest.subrange(0, b) =~= spec_dec(y));
    assert(rest.subrange(b + 1, rest.len() as int) =~= spec_dec(z));
    assert(p1.subrange(r + 2, p1.len() as int) =~= l.caption);
    assert(spec_parse_location(p1) == Some(l));
}

/// Reading back the liveness field of a rendered record gives the flag it
/// was rendered from.
proof fn lemma_parse_status_of_render(alive: bool)
    ensures
        spec_parse_status(status_part(alive)) == Some(alive),
{
    reveal_strlit("alive");
    reveal_strlit("dead");
    if !alive {
        assert(status_part(false).len() == 4);
        assert("alive"@.len() == 5);
    }
}

/// No character of the model-and-energy field is a comma.
proof fn lemma_head_no_comma(d: DroneData)
    requires
        wf_drone(d),
    ensures
        forall|j: int| 0 <= j < head_part(d).len() ==> #[trigger] head_part(d)[j] != ',',
        forall|j: int| 0 <= j < head_part(d).len() ==> #[trigger] head_part(d)[j] != '\n',
{
    reveal_strlit(" (");
    reveal_strlit("%)");
    let e = d.energy_level as nat;
    lemma_dec_digits(e);
    lemma_digits_no_special(spec_dec(e));
    let p0 = head_part(d);
    let m = d.model.len() as int;
    let k = spec_dec(e).len() as int;
    assert forall|j: int| 0 <= j < p0.len() implies #[trigger] p0[j] != ',' && p0[j] != '\n' by {
        if j < m {
            assert(p0[j] == d.model[j]);
        } else if j == m || j == m + 1 {
        } else if j < m + 2 + k {
            assert(p0[j] == spec_dec(e)[j - m - 2]);
        }
    }
}

/// No character of the location field is a comma.
proof fn lemma_loc_no_comma(l: LocationData)
    requires
        plain_text(l.caption),
    ensures
        forall|j: int| 0 <= j < loc_part(l).len() ==> #[trigger] loc_part(l)[j] != ',',
        forall|j: int| 0 <= j < loc_part(l).len() ==> #[trigger] loc_part(l)[j] != '\n',
{
    reveal_strlit("(");
    reveal_strlit(":");
    reveal_strlit(")-");
    let x = l.x as nat;
    let y = l.y as nat;
    let z = l.z as nat;
    lemma_dec_digits(x);
    lemma_dec_digits(y);
    lemma_dec_digits(z);
    lemma_digits_no_special(spec_dec(x));
    lemma_digits_no_special(spec_dec(y));
    lemma_digits_no_special(spec_dec(z));
    let p1 = loc_part(l);
    let a = spec_dec(x).len() as int;
    let b = spec_dec(y).len() as int;
    let c = spec_dec(z).len() as int;
    let r = 1 + a + 1 + b + 1 + c;
    assert forall|j: int| 0 <= j < p1.len() implies #[trigger] p1[j] != ',' && p1[j] != '\n' by {
        if 1 <= j < 1 + a {
            assert(p1[j] == spec_dec(x)[j - 1]);
        } else if 2 + a <= j < 2 + a + b {
            assert(p1[j] == spec_dec(y)[j - 2 - a]);
        } else if 3 + a + b <= j < 3 + a + b + c {
            assert(p1[j] == spec_dec(z)[j - 3 - a - b]);
        } else if r + 2 <= j {
            assert(p1[j] == l.caption[j - r - 2]);
        }
    }
}

/// No character of the liveness field is a comma or a line break.
proof fn lemma_status_no_comma(alive: bool)
    ensures
        forall|j: int|
            0 <= j < status_part(alive).len() ==> #[trigger] status_part(alive)[j] != ','
                && status_part(alive)[j] != '\n',
{
    reveal_strlit("alive");
    reveal_strlit("dead");
}

/// Reading back one rendered record gives the drone it was rendered from,
/// under id zero.
proof fn lemma_parse_line_of_render(d: DroneData)
    requires
        wf_drone(d),
    ensures
        spec_parse_line(spec_render_drone(d)) == Some(with_id(d, 0)),
{
    reveal_strlit(",");
    let s = spec_render_drone(d);
    let p0 = head_part(d);
    let p1 = loc_part(d.location);
    let p2 = status_part(d.is_alive);
    let n0 = p0.len() as int;
    let n1 = p1.len() as int;
    let n2 = p2.len() as int;
    lemma_head_no_comma(d);
    lemma_loc_no_comma(d.location);
    lemma_status_no_comma(d.is_alive);
    assert(s.len() == n0 + 1 + n1 + 1 + n2);
    assert(forall|j: int| 0 <= j < n0 ==> s[j] == p0[j]);
    assert(s[n0] == ',');
    assert(forall|j: int| 0 <= j < n1 ==> s[n0 + 1 + j] == p1[j]);
    assert(s[n0 + 1 + n1] == ',');
    assert(forall|j: int| 0 <= j < n2 ==> s[n0 + 2 + n1 + j] == p2[j]);
    lemma_idx_of_is(s, ',', n0);
    let rest = s.subrange(n0 + 1, s.len() as int);
    assert(rest =~= p1 + ","@ + p2);
    assert(forall|j: int| 0 <= j < n1 ==> rest[j] == p1[j]);
    assert(rest[n1] == ',');
    lemma_idx_of_is(rest, ',', n1);
    assert(s.subrange(0, n0) =~= p0);
    assert(rest.subrange(0, n1) =~= p1);
    assert(rest.subrange(n1 + 1, rest.len() as int) =~= p2);
    lemma_parse_head_of_render(d);
    lemma_parse_location_of_render(d.location);
    lemma_parse_status_of_render(d.is_alive);
    assert(spec_parse_line(s) == Some(with_id(d, 0)));
}

/// A rendered record holds no line break.
proof fn lemma_render_drone_no_newline(d: DroneData)
    requires
        wf_drone(d),
    ensures
        forall|j: int|
            0 <= j < spec_render_drone(d).len() ==> #[trigger] spec_render_drone(d)[j] != '\n',
{
    reveal_strlit(",");
    let s = spec_render_drone(d);
    let p0 = head_part(d);
    let p1 = loc_part(d.location);
    let p2 = status_part(d.is_alive);
    let n0 = p0.len() as int;
    let n1 = p1.len() as int;
    lemma_head_no_comma(d);
    lemma_loc_no_comma(d.location);
    lemma_status_no_comma(d.is_alive);
    assert forall|j: int| 0 <= j < s.len() implies #[trigger] s[j] != '\n' by {
        if j < n0 {
            assert(s[j] == p0[j]);
        } else if j == n0 || j == n0 + 1 + n1 {
            assert(s[j] == ',');
        } else if j < n0 + 1 + n1 {
            assert(s[j] == p1[j - n0 - 1]);
        } else {
            assert(s[j] == p2[j - n0 - 2 - n1]);
        }
    }
}

/// Reading back a rendered fleet gives the drones it was rendered from, in
/// order, each under id zero.
proof fn lemma_parse_lines_of_render(ds: Seq<DroneData>)
    requires
        wf_fleet(ds),
    ensures
        spec_parse_lines(spec_render_fleet(ds)) == Some(
            ds.map_values(|d: DroneData| with_id(d, 0)),
        ),
    decreases ds.len(),
{
    reveal_strlit("\n");
    let s = spec_render_fleet(ds);
    if ds.len() == 0 {
        assert(ds.map_values(|d: DroneData| with_id(d, 0)) =~= Seq::<DroneData>::empty());
    } else {
        let line = spec_render_drone(ds[0]);
        let tail = spec_render_fleet(ds.skip(1));
        let n = line.len() as int;
        lemma_render_drone_no_newline(ds[0]);
        assert(s.len() == n + 1 + tail.len());
        assert(forall|j: int| 0 <= j < n ==> s[j] == line[j]);
        assert(s[n] == '\n');
        lemma_idx_of_is(s, '\n', n);
        assert(s.subrange(0, n) =~= line);
        assert(s.subrange(n + 1, s.len() as int) =~= tail);
        lemma_parse_line_of_render(ds[0]);
        assert(wf_fleet(ds.skip(1)));
        lemma_parse_lines_of_render(ds.skip(1));
        assert(seq![with_id(ds[0], 0)] + ds.skip(1).map_values(|d: DroneData| with_id(d, 0))
            =~= ds.map_values(|d: DroneData| with_id(d, 0)));
    }
}

/// The round-trip law: a well-formed fleet, rendered and read back, comes
/// back whole, with each drone's id replaced by its position. A fleet whose
/// ids already are its positions comes back unchanged
/// (`lemma_roundtrip_exact`).
pub proof fn lemma_save_load_roundtrip(ds: Seq<DroneData>)
    requires
        wf_fleet(ds),
        ds.len() <= u32::MAX,
    ensures
        spec_parse_fleet(spec_render_fleet(ds)) == Some(reindex(ds)),
{
    lemma_parse_lines_of_render(ds);
    assert(reindex(ds.map_values(|d: DroneData| with_id(d, 0))) =~= reindex(ds));
}

/// The round-trip law for a fleet numbered the way `load` numbers one: the
/// fleet comes back exactly, every field of every drone included.
pub proof fn lemma_roundtrip_exact(ds: Seq<DroneData>)
    requires
        wf_fleet(ds),
        ds.len() <= u32::MAX,
        forall|k: int| 0 <= k < ds.len() ==> #[trigger] ds[k].id == k,
    ensures
        spec_parse_fleet(spec_render_fleet(ds)) == Some(ds),
{
    lemma_save_load_roundtrip(ds);
    assert forall|k: int| 0 <= k < ds.len() implies reindex(ds)[k] == ds[k] by {
        assert(ds[k].id == k);
        assert((k as u32) as int == k);
    }
    assert(reindex(ds) =~= ds);
}

/// Rendering a fleet one drone longer appends one more record line.
pub proof fn lemma_render_fleet_snoc(ds: Seq<DroneData>, d: DroneData)
    ensures
        spec_render_fleet(ds.push(d)) == spec_render_fleet(ds) + spec_render_drone(d) + "\n"@,
    decreases ds.len(),
{
    if ds.len() == 0 {
        assert(ds.push(d)[0] == d);
        assert(ds.push(d).skip(1) =~= ds);
        assert(spec_render_fleet(ds.push(d)) =~= spec_render_fleet(ds) + spec_render_drone(d)
            + "\n"@);
    } else {
        lemma_render_fleet_snoc(ds.skip(1), d);
        assert(ds.push(d).skip(1) =~= ds.skip(1).push(d));
        assert(ds.push(d)[0] == ds[0]);
        assert(spec_render_fleet(ds.push(d)) =~= spec_render_fleet(ds) + spec_render_drone(d)
            + "\n"@);
    }
}

// ---------------------------------------------------------------------------
// Executable rendering and parsing
// ---------------------------------------------------------------------------
/// The index of the first occurrence of `c` in `s`, or the length when `c`
/// does not occur; the executable form of `idx_of`.
pub(crate) fn find_char(s: &str, c: char) -> (i: usize)
    ensures
        i as int == idx_of(s@, c),
        i <= s@.len(),
{
    let n = s.unicode_len();
    let mut i: usize = 0;
    while i < n
        invariant
            n == s@.len(),
            0 <= i <= n,
            forall|k: int| 0 <= k < i ==> s@[k] != c,
        decreases n - i,
    {
        if s.get_char(i) == c {
            proof {
                lemma_idx_of_is(s@, c, i as int);
            }
            return i;
        }
        i = i + 1;
    }
    proof {
        lemma_idx_of_is(s@, c, n as int);
    }
    n
}

/// Character-for-character string equality.
pub(crate) fn eq_str(a: &str, b: &str) -> (r: bool)
    ensures
        r == (a@ == b@),
{
    let n = a.unicode_len();
    if n != b.unicode_len() {
        return false;
    }
    let mut i: usize = 0;
    while i < n
        invariant
            n == a@.len(),
            n == b@.len(),
            0 <= i <= n,
            forall|k: int| 0 <= k < i ==> a@[k] == b@[k],
        decreases n - i,
    {
        if a.get_char(i) != b.get_char(i) {
            return false;
        }
        i = i + 1;
    }
    proof {
        assert(a@ =~= b@);
    }
    true
}

/// Renders one drone as one record, exactly as `spec_render_drone`
/// describes.
pub fn render_drone(d: &Drone) -> (s: String)
    ensures
        s@ == spec_render_drone(d@),
{
    let mut s = String::new();
    s.append(d.model.as_str());
    s.append(" (");
    let e = u32_to_string(d.energy_level);
    s.append(e.as_str());
    s.append("%)");
    s.append(",");
    s.append("(");
    let x = u32_to_string(d.location.x);
    s.append(x.as_str());
    s.append(":");
    let y = u32_to_string(d.location.y);
    s.append(y.as_str());
    s.append(":");
    let z = u32_to_string(d.location.z);
    s.append(z.as_str());
    s.append(")-");
    s.append(d.location.caption.as_str());
    s.append(",");
    if d.is_alive {
        s.append("alive");
    } else {
        s.append("dead");
    }
    proof {
        assert(s@ =~= spec_render_drone(d@));
    }
    s
}

/// Reads the model-and-energy field; the executable form of
/// `spec_parse_head`.
fn parse_head(p0: &str) -> (r: Option<(String, u32)>)
    ensures
        r is Some <==> spec_parse_head(p0@) is Some,
        r matches Some((m, e)) ==> Some((m@, e)) == spec_parse_head(p0@),
{
    let n = p0.unicode_len();
    let i = find_char(p0, '(');
    if i < 1 || n < 3 || i > n - 3 {
        return None;
    }
    if p0.get_char(i - 1) != ' ' || p0.get_char(n - 2) != '%' || p0.get_char(n - 1) != ')' {
        return None;
    }
    let ds = p0.substring_char(i + 1, n - 2);
    match parse_u32(ds) {
        None => None,
        Some(e) => {
            let model = p0.substring_char(0, i - 1).to_owned();
            Some((model, e))
        },
    }
}

/// Reads the location field; the executable form of `spec_parse_location`.
fn parse_location(p1: &str) -> (r: Option<Location>)
    ensures
        r is Some <==> spec_parse_location(p1@) is Some,
        r matches Some(l) ==> Some(l@) == spec_parse_location(p1@),
{
    let n = p1.unicode_len();
    if n == 0 {
        return None;
    }
    if p1.get_char(0) != '(' {
        return None;
    }
    let r = find_char(p1, ')');
    proof {
        lemma_idx_of_props(p1@, ')');
    }
    if r == n || n - r < 2 {
        return None;
    }
    if p1.get_char(r + 1) != '-' {
        return None;
    }
    assert(r >= 1);
    let inner = p1.substring_char(1, r);
    let inner_len = inner.unicode_len();
    let j1 = find_char(inner, ':');
    if j1 == inner_len {
        return None;
    }
    let xd = inner.substring_char(0, j1);
    let rest = inner.substring_char(j1 + 1, inner_len);
    let rest_len = rest.unicode_len();
    let j2 = find_char(rest, ':');
    if j2 == rest_len {
        return None;
    }
    let yd = rest.substring_char(0, j2);
    let zd = rest.substring_char(j2 + 1, rest_len);
    let x = match parse_u32(xd) {
        None => {
            return None;
        },
        Some(v) => v,
    };
    let y = match parse_u32(yd) {
        None => {
            return None;
        },
        Some(v) => v,
    };
    let z = match parse_u32(zd) {
        None => {
            return None;
        },
        Some(v) => v,
    };
    let caption = p1.substring_char(r + 2, n).to_owned();
    Some(Location { x, y, z, caption })
}

/// Reads one record; the executable form of `spec_parse_line`. The id is
/// left at zero for the caller to assign.
fn parse_line(line: &str) -> (r: Option<Drone>)
    ensures
        r is Some <==> spec_parse_line(line@) is Some,
        r matches Some(d) ==> Some(d@) == spec_parse_line(line@),
{
    let n = line.unicode_len();
    let i1 = find_char(line, ',');
    if i1 == n {
        return None;
    }
    let p0 = line.substring_char(0, i1);
    let rest = line.substring_char(i1 + 1, n);
    let rest_len = rest.unicode_len();
    let i2 = find_char(rest, ',');
    if i2 == rest_len {
        return None;
    }
    let p1 = rest.substring_char(0, i2);
    let p2 = rest.substring_char(i2 + 1, rest_len);
    let head = match parse_head(p0) {
        None => {
            return None;
        },
        Some(h) => h,
    };
    let loc = match parse_location(p1) {
        None => {
            return None;
        },
        Some(l) => l,
    };
    let alive = if eq_str(p2, "alive") {
        true
    } else if eq_str(p2, "dead") {
        false
    } else {
        return None;
    };
    let (model, energy) = head;
    Some(Drone { id: 0, model, energy_level: energy, location: loc, is_alive: alive })
}

/// Reads newline-terminated records; the executable form of
/// `spec_parse_lines`, every id left at zero.
fn parse_lines_text(s: &str) -> (r: Option<Vec<Drone>>)
    ensures
        r is Some <==> spec_parse_lines(s@) is Some,
        r matches Some(v) ==> Some(v@.map_values(|d: Drone| d@)) == spec_parse_lines(s@),
    decreases s@.len(),
{
    let n = s.unicode_len();
    if n == 0 {
        let v: Vec<Drone> = Vec::new();
        proof {
            assert(v@.map_values(|d: Drone| d@) =~= Seq::<DroneData>::empty());
        }
        return Some(v);
    }
    let i = find_char(s, '\n');
    if i == n {
        return None;
    }
    let line = s.substring_char(0, i);
    let d = match parse_line(line) {
        None => {
            return None;
        },
        Some(d) => d,
    };
    let rest = s.substring_char(i + 1, n);
    let mut tail = match parse_lines_text(rest) {
        None => {
            return None;
        },
        Some(t) => t,
    };
    let ghost tail_view = tail@;
    let ghost d_snap = d;
    tail.insert(0, d);
    proof {
        assert(tail@ =~= seq![d_snap] + tail_view);
        assert(tail@.map_values(|x: Drone| x@) =~= seq![d_snap@] + tail_view.map_values(
            |x: Drone| x@,
        ));
    }
    Some(tail)
}

/// Reads a whole fleet text back; the executable form of
/// `spec_parse_fleet`: the records in order, each given its position as id.
pub fn parse_fleet_text(content: &str) -> (r: Result<Vec<Drone>, FleetParseError>)
    ensures
        r is Ok <==> spec_parse_fleet(content@) is Some,
        r matches Ok(v) ==> Some(v@.map_values(|d: Drone| d@)) == spec_parse_fleet(content@),
{
    let raw = match parse_lines_text(content) {
        None => {
            return Err(FleetParseError::InvalidFormat);
        },
        Some(v) => v,
    };
    if raw.len() > u32::MAX as usize {
        return Err(FleetParseError::InvalidFormat);
    }
    let ghost raw_data = raw@.map_values(|d: Drone| d@);
    let mut out: Vec<Drone> = Vec::new();
    let mut k: usize = 0;
    while k < raw.len()
        invariant
            raw@.map_values(|d: Drone| d@) == raw_data,
            raw.len() <= u32::MAX,
            0 <= k <= raw.len(),
            out@.len() == k,
            forall|j: int| 0 <= j < k ==> #[trigger] out@[j]@ == with_id(raw_data[j], j as u32),
        decreases raw.len() - k,
    {
        let d = &raw[k];
        let renumbered = Drone {
            id: k as u32,
            model: d.model.clone(),
            energy_level: d.energy_level,
            location: d.location.clone(),
            is_alive: d.is_alive,
        };
        out.push(renumbered);
        k = k + 1;
    }
    proof {
        assert(out@.map_values(|d: Drone| d@) =~= reindex(raw_data));
    }
    Ok(out)
}

} // verus!
