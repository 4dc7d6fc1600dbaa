//! CSV text for the logging consumer: the header derived from channel
//! metadata, one row per sample, and the per-session file name.

use vstd::prelude::*;
use vstd::string::StringExecFns;

use crate::clock::lemma_datetime_clean;
use crate::clock::Timestamp;
use crate::sensor::AppMsg;
use crate::sensor::SampleData;
use crate::sensor::SensorChannel;
use crate::sensor::SensorData;
use crate::sensor::SensorModel;
use crate::sensor::SensorType;
use crate::sensor::Unit;
use crate::textfmt::count_char;
use crate::textfmt::lemma_count_char_concat;
use crate::textfmt::lemma_count_char_single;
use crate::textfmt::lemma_count_char_zero;
use crate::textfmt::lemma_scaled_clean;
use crate::textfmt::scaled_string;
use crate::textfmt::spec_scaled;

verus! {

/// Label of one channel in the header: `Type(Unit)`.
pub open spec fn spec_channel_label(c: SensorChannel) -> Seq<char> {
    c.sensor_type.spec_name() + "("@ + c.unit.spec_name() + ")"@
}

/// The header row: `Timestamp`, then one labeled column per channel.
pub open spec fn spec_csv_header(cs: Seq<SensorChannel>) -> Seq<char>
    decreases cs.len(),
{
    if cs.len() == 0 {
        "Timestamp"@
    } else {
        spec_csv_header(cs.drop_last()) + ","@ + spec_channel_label(cs.last())
    }
}

/// One data row: the timestamp, then one rendered value per reading.
pub open spec fn spec_csv_row(ts: Timestamp, data: Seq<SensorData>) -> Seq<char>
    decreases data.len(),
{
    if data.len() == 0 {
        ts.spec_datetime()
    } else {
        spec_csv_row(ts, data.drop_last()) + ","@ + spec_scaled(
            data.last().value.raw as nat,
            data.last().value.exp as nat,
        )
    }
}

/// The per-session log file name: `<stamp>_<model>.csv`.
pub open spec fn spec_log_filename(ts: Timestamp, model: SensorModel) -> Seq<char> {
    ts.spec_file_stamp() + "_"@ + model.spec_name() + ".csv"@
}

/// A sensor-type label contains neither a comma nor a line break.
proof fn lemma_type_name_clean(t: SensorType)
    ensures
        count_char(t.spec_name(), ',') == 0,
        count_char(t.spec_name(), '\n') == 0,
{
    match t {
        SensorType::CO => {
            reveal_strlit("CO");
            lemma_count_char_zero("CO"@, ',');
            lemma_count_char_zero("CO"@, '\n');
        },
        SensorType::NO2 => {
            reveal_strlit("NO2");
            lemma_count_char_zero("NO2"@, ',');
            lemma_count_char_zero("NO2"@, '\n');
        },
        SensorType::PM1 => {
            reveal_strlit("PM1");
            lemma_count_char_zero("PM1"@, ',');
            lemma_count_char_zero("PM1"@, '\n');
        },
        SensorType::PM2_5 => {
            reveal_strlit("PM2_5");
            lemma_count_char_zero("PM2_5"@, ',');
            lemma_count_char_zero("PM2_5"@, '\n');
        },
        SensorType::PM10 => {
            reveal_strlit("PM10");
            lemma_count_char_zero("PM10"@, ',');
            lemma_count_char_zero("PM10"@, '\n');
        },
    }
}

/// A unit label contains neither a comma nor a line break.
proof fn lemma_unit_name_clean(u: Unit)
    ensures
        count_char(u.spec_name(), ',') == 0,
        count_char(u.spec_name(), '\n') == 0,
{
    match u {
        Unit::PPM => {
            reveal_strlit("ppm");
            lemma_count_char_zero("ppm"@, ',');
            lemma_count_char_zero("ppm"@, '\n');
        },
        Unit::PPB => {
            reveal_strlit("ppb");
            lemma_count_char_zero("ppb"@, ',');
            lemma_count_char_zero("ppb"@, '\n');
        },
        Unit::MgPerM3 => {
            reveal_strlit("mg/m3");
            lemma_count_char_zero("mg/m3"@, ',');
            lemma_count_char_zero("mg/m3"@, '\n');
        },
        Unit::UgPerM3 => {
            reveal_strlit("ug/m3");
            lemma_count_char_zero("ug/m3"@, ',');
            lemma_count_char_zero("ug/m3"@, '\n');
        },
        Unit::PercentVol => {
            reveal_strlit("%vol");
            lemma_count_char_zero("%vol"@, ',');
            lemma_count_char_zero("%vol"@, '\n');
        },
        Unit::TenGPerM3 => {
            reveal_strlit("10g/m3");
            lemma_count_char_zero("10g/m3"@, ',');
            lemma_count_char_zero("10g/m3"@, '\n');
        },
    }
}

/// A whole channel label contains neither a comma nor a line break.
proof fn lemma_label_clean(ch: SensorChannel)
    ensures
        count_char(spec_channel_label(ch), ',') == 0,
        count_char(spec_channel_label(ch), '\n') == 0,
{
    lemma_type_name_clean(ch.sensor_type);
    lemma_unit_name_clean(ch.unit);
    reveal_strlit("(");
    reveal_strlit(")");
    assert("("@ =~= seq!['(']);
    assert(")"@ =~= seq![')']);
    lemma_count_char_single('(', ',');
    lemma_count_char_single('(', '\n');
    lemma_count_char_single(')', ',');
    lemma_count_char_single(')', '\n');
    let s1 = ch.sensor_type.spec_name();
    let s2 = s1 + "("@;
    let s3 = s2 + ch.unit.spec_name();
    lemma_count_char_concat(s1, "("@, ',');
    lemma_count_char_concat(s1, "("@, '\n');
    lemma_count_char_concat(s2, ch.unit.spec_name(), ',');
    lemma_count_char_concat(s2, ch.unit.spec_name(), '\n');
    lemma_count_char_concat(s3, ")"@, ',');
    lemma_count_char_concat(s3, ")"@, '\n');
}

/// Law: the CSV header is a single line that splits into exactly
/// `1 + len(channels)` comma-separated fields: it holds one comma per
/// channel and no line break.
pub proof fn lemma_csv_header_fields(cs: Seq<SensorChannel>)
    ensures
        count_char(spec_csv_header(cs), ',') == cs.len(),
        count_char(spec_csv_header(cs), '\n') == 0,
    decreases cs.len(),
{
    if cs.len() == 0 {
        reveal_strlit("Timestamp");
        lemma_count_char_zero("Timestamp"@, ',');
        lemma_count_char_zero("Timestamp"@, '\n');
    } else {
        lemma_csv_header_fields(cs.drop_last());
        lemma_label_clean(cs.last());
        reveal_strlit(",");
        assert(","@ =~= seq![',']);
        lemma_count_char_single(',', ',');
        lemma_count_char_single(',', '\n');
        let s1 = spec_csv_header(cs.drop_last());
        let s2 = s1 + ","@;
        lemma_count_char_concat(s1, ","@, ',');
        lemma_count_char_concat(s1, ","@, '\n');
        lemma_count_char_concat(s2, spec_channel_label(cs.last()), ',');
        lemma_count_char_concat(s2, spec_channel_label(cs.last()), '\n');
    }
}

/// Law: one CSV data row is a single line that splits into exactly
/// `1 + len(readings)` comma-separated fields — the timestamp and one
/// rendered value per reading: it holds one comma per reading and no
/// line break.
pub proof fn lemma_csv_row_fields(ts: Timestamp, data: Seq<SensorData>)
    ensures
        count_char(spec_csv_row(ts, data), ',') == data.len(),
        count_char(spec_csv_row(ts, data), '\n') == 0,
    decreases data.len(),
{
    if data.len() == 0 {
        lemma_datetime_clean(ts, ',');
        lemma_datetime_clean(ts, '\n');
    } else {
        lemma_csv_row_fields(ts, data.drop_last());
        let value = data.last().value;
        lemma_scaled_clean(value.raw as nat, value.exp as nat, ',');
        lemma_scaled_clean(value.raw as nat, value.exp as nat, '\n');
        reveal_strlit(",");
        assert(","@ =~= seq![',']);
        lemma_count_char_single(',', ',');
        lemma_count_char_single(',', '\n');
        let s1 = spec_csv_row(ts, data.drop_last());
        let s2 = s1 + ","@;
        let rendered = spec_scaled(value.raw as nat, value.exp as nat);
        lemma_count_char_concat(s1, ","@, ',');
        lemma_count_char_concat(s1, ","@, '\n');
        lemma_count_char_concat(s2, rendered, ',');
        lemma_count_char_concat(s2, rendered, '\n');
    }
}

/// Renders the CSV header for the given channels.
pub fn csv_header(channels: &Vec<SensorChannel>) -> (r: String)
    ensures
        r@ == spec_csv_header(channels@),
{
    let mut s = String::from_str("Timestamp");
    let mut i: usize = 0;
    while i < channels.len()
        invariant
            i <= channels@.len(),
            s@ == spec_csv_header(channels@.take(i as int)),
        decreases channels@.len() - i,
    {
        let ch = channels[i];
        s.append(",");
        s.append(ch.sensor_type.name());
        s.append("(");
        s.append(ch.unit.name());
        s.append(")");
        proof {
            reveal_strlit(",");
            assert(channels@.take(i + 1 as int).drop_last() =~= channels@.take(i as int));
            assert(s@ =~= spec_csv_header(channels@.take(i + 1 as int)));
        }
        i = i + 1;
    }
    proof {
        assert(channels@.take(channels@.len() as int) =~= channels@);
    }
    s
}

/// Renders one CSV data row for a sample.
pub fn csv_row(sample: &SampleData) -> (r: String)
    requires
        sample.wf(),
    ensures
        r@ == spec_csv_row(sample.timestamp, sample.data@),
{
    let mut s = sample.timestamp.datetime_string();
    let mut i: usize = 0;
    while i < sample.data.len()
        invariant
            sample.wf(),
            i <= sample.data@.len(),
            s@ == spec_csv_row(sample.timestamp, sample.data@.take(i as int)),
        decreases sample.data@.len() - i,
    {
        let d = sample.data[i];
        s.append(",");
        let value = scaled_string(d.value.raw, d.value.exp);
        s.append(value.as_str());
        proof {
            assert(sample.data@.take(i + 1 as int).drop_last() =~= sample.data@.take(i as int));
            assert(s@ =~= spec_csv_row(sample.timestamp, sample.data@.take(i + 1 as int)));
        }
        i = i + 1;
    }
    proof {
        assert(sample.data@.take(sample.data@.len() as int) =~= sample.data@);
    }
    s
}

/// Renders the log file name for a session that starts at `ts`.
pub fn log_filename(ts: &Timestamp, model: SensorModel) -> (r: String)
    ensures
        r@ == spec_log_filename(*ts, model),
{
    let mut s = ts.file_stamp_string();
    s.append("_");
    s.append(model.name());
    s.append(".csv");
    proof {
        assert(s@ =~= spec_log_filename(*ts, model));
    }
    s
}

/// Whether every reading of the sample has an in-range divisor exponent.
pub fn sample_wf(s: &SampleData) -> (r: bool)
    ensures
        r == s.wf(),
{
    let mut i: usize = 0;
    while i < s.data.len()
        invariant
            i <= s.data@.len(),
            forall|j: int| 0 <= j < i ==> (#[trigger] s.data@[j]).wf(),
        decreases s.data@.len() - i,
    {
        if s.data[i].value.exp > 9 {
            return false;
        }
        i = i + 1;
    }
    true
}

/// The CSV line a bus message contributes: one row per well-formed
/// sample; nothing for a status message, and nothing for a sample whose
/// divisor exponent is out of range.
pub fn log_line(msg: &AppMsg) -> (r: Option<String>)
    ensures
        match *msg {
            AppMsg::Status(_) => r is None,
            AppMsg::Sample(s) => {
                &&& s.wf() ==> (r matches Some(line) && line@ == spec_csv_row(s.timestamp, s.data@))
                &&& !s.wf() ==> r is None
            },
        },
{
    match msg {
        AppMsg::Status(_) => None,
        AppMsg::Sample(s) => {
            if sample_wf(s) {
                Some(csv_row(s))
            } else {
                None
            }
        },
    }
}

} // verus!
