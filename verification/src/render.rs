//! The persisted form of an aggregate: one flat JSON document with stable
//! field order and number formatting, and the name of the file it goes to.

use vstd::prelude::*;
use crate::collector::Experiment;
use crate::outcome::ExperimentEntry;

verus! {

/// The decimal digit characters.
pub open spec fn spec_digit_char(d: int) -> char
    recommends
        0 <= d < 10,
{
    if d == 0 {
        '0'
    } else if d == 1 {
        '1'
    } else if d == 2 {
        '2'
    } else if d == 3 {
        '3'
    } else if d == 4 {
        '4'
    } else if d == 5 {
        '5'
    } else if d == 6 {
        '6'
    } else if d == 7 {
        '7'
    } else if d == 8 {
        '8'
    } else {
        '9'
    }
}

/// The decimal rendering of a non-negative integer, most significant digit
/// first, without leading zeroes (zero itself is a single digit).
pub open spec fn spec_dec(n: int) -> Seq<char>
    recommends
        n >= 0,
    decreases n,
{
    if n < 10 {
        seq![spec_digit_char(n)]
    } else {
        spec_dec(n / 10) + seq![spec_digit_char(n % 10)]
    }
}

/// The rendering of a flag.
pub open spec fn spec_bool_json(b: bool) -> Seq<char> {
    if b {
        "true"@
    } else {
        "false"@
    }
}

/// The rendering of one entry: an object with its two fields in declaration
/// order, unpadded.
pub open spec fn spec_entry_json(e: ExperimentEntry) -> Seq<char> {
    "{\"success\":"@ + spec_bool_json(e.success) + ",\"time_us\":"@ + spec_dec(e.time_us as int)
        + "}"@
}

/// The rendering of the entry list's body: the entries in order, separated
/// by commas.
pub open spec fn spec_entries_json(s: Seq<ExperimentEntry>) -> Seq<char>
    decreases s.len(),
{
    if s.len() == 0 {
        Seq::empty()
    } else if s.len() == 1 {
        spec_entry_json(s[0])
    } else {
        spec_entries_json(s.drop_last()) + ","@ + spec_entry_json(s.last())
    }
}

/// The rendering of a whole aggregate: duration, rate and the entry array,
/// in that order.
pub open spec fn spec_experiment_json(duration: u64, rps: u64, data: Seq<ExperimentEntry>) -> Seq<
    char,
> {
    "{\"duration\":"@ + spec_dec(duration as int) + ",\"rps\":"@ + spec_dec(rps as int)
        + ",\"data\":["@ + spec_entries_json(data) + "]}"@
}

/// The name of the output artifact: the duration, a dash, the rate, and the
/// JSON suffix.
pub open spec fn spec_file_name(duration: u64, rps: u64) -> Seq<char> {
    spec_dec(duration as int) + "-"@ + spec_dec(rps as int) + ".json"@
}

fn digit_str(d: u64) -> (r: &'static str)
    requires
        d < 10,
    ensures
        r@ == seq![spec_digit_char(d as int)],
{
    proof {
        reveal_strlit("0");
        reveal_strlit("1");
        reveal_strlit("2");
        reveal_strlit("3");
        reveal_strlit("4");
        reveal_strlit("5");
        reveal_strlit("6");
        reveal_strlit("7");
        reveal_strlit("8");
        reveal_strlit("9");
    }
    let r: &'static str = if d == 0 {
        "0"
    } else if d == 1 {
        "1"
    } else if d == 2 {
        "2"
    } else if d == 3 {
        "3"
    } else if d == 4 {
        "4"
    } else if d == 5 {
        "5"
    } else if d == 6 {
        "6"
    } else if d == 7 {
        "7"
    } else if d == 8 {
        "8"
    } else {
        "9"
    };
    proof {
        assert(r@ =~= seq![spec_digit_char(d as int)]);
    }
    r
}

/// Render a second or rate count in decimal.
pub fn u64_dec(n: u64) -> (s: String)
    ensures
        s@ == spec_dec(n as int),
    decreases n,
{
    if n < 10 {
        String::from_str(digit_str(n))
    } else {
        let mut s = u64_dec(n / 10);
        s.append(digit_str(n % 10));
        s
    }
}

/// Render a microsecond count in decimal.
pub fn u128_dec(n: u128) -> (s: String)
    ensures
        s@ == spec_dec(n as int),
    decreases n,
{
    if n < 10 {
        String::from_str(digit_str(n as u64))
    } else {
        let mut s = u128_dec(n / 10);
        s.append(digit_str((n % 10) as u64));
        s
    }
}

fn bool_json(b: bool) -> (r: &'static str)
    ensures
        r@ == spec_bool_json(b),
{
    if b {
        "true"
    } else {
        "false"
    }
}

/// Render one entry.
pub fn entry_json(e: &ExperimentEntry) -> (s: String)
    ensures
        s@ == spec_entry_json(*e),
{
    let mut s = String::from_str("{\"success\":");
    s.append(bool_json(e.success));
    s.append(",\"time_us\":");
    let t = u128_dec(e.time_us);
    s.append(t.as_str());
    s.append("}");
    proof {
        assert(s@ =~= spec_entry_json(*e));
    }
    s
}

proof fn lemma_entries_json_step(d: Seq<ExperimentEntry>, i: int)
    requires
        0 <= i < d.len(),
    ensures
        i == 0 ==> spec_entries_json(d.take(1)) == spec_entry_json(d[0]),
        i > 0 ==> spec_entries_json(d.take(i + 1)) == spec_entries_json(d.take(i)) + ","@
            + spec_entry_json(d[i]),
{
    let t = d.take(i + 1);
    if i > 0 {
        assert(t.drop_last() =~= d.take(i));
        assert(t.last() == d[i]);
    }
}

/// Render the comma-separated entry list.
pub fn entries_json(data: &Vec<ExperimentEntry>) -> (s: String)
    ensures
        s@ == spec_entries_json(data@),
{
    let mut s = String::new();
    let mut i: usize = 0;
    while i < data.len()
        invariant
            0 <= i <= data@.len(),
            s@ == spec_entries_json(data@.take(i as int)),
        decreases data@.len() - i,
    {
        if i > 0 {
            s.append(",");
        }
        let piece = entry_json(&data[i]);
        s.append(piece.as_str());
        proof {
            lemma_entries_json_step(data@, i as int);
            if i == 0 {
                assert(s@ =~= spec_entries_json(data@.take(1)));
            }
        }
        i = i + 1;
    }
    proof {
        assert(data@.take(data@.len() as int) =~= data@);
    }
    s
}

/// Render a whole aggregate as the single flat JSON document the run
/// persists.
pub fn experiment_json(e: &Experiment) -> (s: String)
    ensures
        s@ == spec_experiment_json(e.duration, e.rps, e.data@),
{
    let mut s = String::from_str("{\"duration\":");
    let d = u64_dec(e.duration);
    s.append(d.as_str());
    s.append(",\"rps\":");
    let r = u64_dec(e.rps);
    s.append(r.as_str());
    s.append(",\"data\":[");
    let body = entries_json(&e.data);
    s.append(body.as_str());
    s.append("]}");
    proof {
        assert(s@ =~= spec_experiment_json(e.duration, e.rps, e.data@));
    }
    s
}

/// The output artifact's name for a run's configuration.
pub fn result_file_name(duration: u64, rps: u64) -> (s: String)
    ensures
        s@ == spec_file_name(duration, rps),
{
    let mut s = u64_dec(duration);
    s.append("-");
    let r = u64_dec(rps);
    s.append(r.as_str());
    s.append(".json");
    proof {
        assert(s@ =~= spec_file_name(duration, rps));
    }
    s
}

/// Writing one aggregate twice yields identical text: the rendering is a
/// function of the aggregate's value alone, with stable field order and
/// stable number formatting.
pub proof fn lemma_render_repeatable(
    d1: u64,
    r1: u64,
    a1: Seq<ExperimentEntry>,
    d2: u64,
    r2: u64,
    a2: Seq<ExperimentEntry>,
)
    requires
        d1 == d2,
        r1 == r2,
        a1 == a2,
    ensures
        spec_experiment_json(d1, r1, a1) == spec_experiment_json(d2, r2, a2),
{
}

} // verus!
