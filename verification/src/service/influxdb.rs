//! The time-series database: the line that stands for a reading, the request
//! that writes it, and what the answer means.
//!
//! A line has the shape `measurement,tag=value field=value,... timestamp`,
//! with the timestamp in milliseconds.
use vstd::prelude::*;
use vstd::string::*;

use crate::driver::linky::LinkyFrame;
use crate::driver::linky::LinkyFrameView;
use crate::settings::InfluxDB;
use crate::text::decimal::decimal;
use crate::text::decimal::push_decimal;
use crate::text::decimal::push_signed_decimal;
use crate::text::decimal::signed_decimal;
use crate::text::push_str;
use crate::text::string_of;

verus! {

/// Why a reading was not written.
#[derive(Debug, PartialEq, Eq)]
pub enum InfluxDBClientError {
    /// The database answered, but not with the status that confirms a write.
    UnexpectedResponse,
    /// The database did not answer in time.
    TimedOut,
    /// The request failed in another way.
    Unknown,
}

/// A reading that can be written as a line of the database.
pub trait InfluxDbSerialize {
    /// The line that stands for the reading; `prefix`, where there is one,
    /// comes before the name of the measurement, parted from it by a dot.
    fn to_line_data(&self, prefix: &Option<String>) -> String;
}

/// The name of a measurement: `name`, behind the prefix and a dot where there
/// is a prefix.
pub open spec fn measurement(prefix: Option<Seq<char>>, name: Seq<char>) -> Seq<char> {
    match prefix {
        Some(p) => p + "."@ + name,
        None => name,
    }
}

/// `key=value` for each pair of `fields`, parted by commas.
pub open spec fn field_set(fields: Seq<(Seq<char>, Seq<char>)>) -> Seq<char>
    decreases fields.len(),
{
    if fields.len() == 0 {
        Seq::empty()
    } else if fields.len() == 1 {
        fields[0].0 + "="@ + fields[0].1
    } else {
        field_set(fields.drop_last()) + ","@ + fields.last().0 + "="@ + fields.last().1
    }
}

/// A line of the database: the measurement, a comma, the tag, a space, the
/// fields, a space, the timestamp.
pub open spec fn line(
    prefix: Option<Seq<char>>,
    name: Seq<char>,
    tag: (Seq<char>, Seq<char>),
    fields: Seq<(Seq<char>, Seq<char>)>,
    millis: int,
) -> Seq<char> {
    measurement(prefix, name) + ","@ + tag.0 + "="@ + tag.1 + " "@ + field_set(fields) + " "@
        + signed_decimal(millis)
}

/// The line that stands for a reading of the meter.
pub open spec fn linky_line(frame: LinkyFrameView, prefix: Option<Seq<char>>) -> Seq<char> {
    line(
        prefix,
        "linky"@,
        ("adco"@, frame.adco),
        seq![
            ("hc_index"@, decimal(frame.hchc as nat)),
            ("hp_index"@, decimal(frame.hchp as nat)),
        ],
        frame.timestamp.spec_millis(),
    )
}

/// The view of an optional string.
pub open spec fn option_view(s: Option<String>) -> Option<Seq<char>> {
    match s {
        Some(p) => Some(p@),
        None => None,
    }
}

/// The views of the pairs of `fields`, in order.
pub open spec fn pair_views(fields: Seq<(String, String)>) -> Seq<(Seq<char>, Seq<char>)> {
    fields.map_values(|f: (String, String)| (f.0@, f.1@))
}

/// Writes a line of the database.
///
/// `name` is the measurement, `tag_key` and `tag_value` its one tag, `fields`
/// the fields with their values as they are to stand in the line, and
/// `millis` the instant of the reading.
pub fn line_data(
    prefix: &Option<String>,
    name: &str,
    tag_key: &str,
    tag_value: &str,
    fields: &Vec<(String, String)>,
    millis: i64,
) -> (out: String)
    ensures
        out@ == line(
            option_view(*prefix),
            name@,
            (tag_key@, tag_value@),
            pair_views(fields@),
            millis as int,
        ),
{
    let mut out: Vec<char> = Vec::new();
    match prefix {
        Some(p) => {
            push_str(&mut out, p.as_str());
            push_str(&mut out, ".");
        },
        None => {},
    }
    push_str(&mut out, name);
    assert(out@ == measurement(option_view(*prefix), name@));
    push_str(&mut out, ",");
    push_str(&mut out, tag_key);
    push_str(&mut out, "=");
    push_str(&mut out, tag_value);
    push_str(&mut out, " ");
    let ghost head = out@;
    let ghost all = pair_views(fields@);
    let mut i: usize = 0;
    while i < fields.len()
        invariant
            i <= fields.len(),
            all == pair_views(fields@),
            out@ == head + field_set(all.take(i as int)),
        decreases fields.len() - i,
    {
        proof {
            assert(all.take(i + 1).drop_last() == all.take(i as int));
            assert(all.take(i + 1).last() == (fields@[i as int].0@, fields@[i as int].1@));
        }
        if i > 0 {
            push_str(&mut out, ",");
        }
        push_str(&mut out, fields[i].0.as_str());
        push_str(&mut out, "=");
        push_str(&mut out, fields[i].1.as_str());
        proof {
            let f = all.take(i + 1);
            if i == 0 {
                assert(field_set(all.take(0)) == Seq::<char>::empty());
                assert(out@ == head + field_set(f));
            } else {
                assert(out@ == head + field_set(f));
            }
        }
        i += 1;
    }
    assert(all.take(fields.len() as int) == all);
    push_str(&mut out, " ");
    push_signed_decimal(&mut out, millis);
    string_of(&out)
}

impl InfluxDbSerialize for LinkyFrame {
    fn to_line_data(&self, prefix: &Option<String>) -> (out: String)
        ensures
            out@ == linky_line(self@, option_view(*prefix)),
    {
        let mut hchc: Vec<char> = Vec::new();
        push_decimal(&mut hchc, self.hchc as u64);
        let mut hchp: Vec<char> = Vec::new();
        push_decimal(&mut hchp, self.hchp as u64);
        let mut fields: Vec<(String, String)> = Vec::new();
        fields.push((String::from_str("hc_index"), string_of(&hchc)));
        fields.push((String::from_str("hp_index"), string_of(&hchp)));
        assert(pair_views(fields@) == seq![
            ("hc_index"@, decimal(self.hchc as nat)),
            ("hp_index"@, decimal(self.hchp as nat)),
        ]);
        line_data(
            prefix,
            "linky",
            "adco",
            self.adco.as_str(),
            &fields,
            self.timestamp.timestamp_millis(),
        )
    }
}

/// What the database made of a request.
#[derive(Debug, PartialEq, Eq)]
pub enum WriteOutcome {
    /// It answered with this HTTP status.
    Status(u16),
    /// It did not answer in time.
    TimedOut,
    /// The request failed in another way.
    Failed,
}

/// The status with which the database confirms a write.
pub const WRITTEN: u16 = 204;

/// The request that writes one line.
#[derive(Debug, PartialEq, Eq)]
pub struct WriteRequest {
    /// Where to post the line.
    pub url: String,
    /// The database to write to.
    pub db: String,
    /// The unit of the line's timestamp.
    pub precision: String,
    /// The line.
    pub body: String,
}

/// The writer of the readings.
pub struct InfluxDBClient {
    /// Where the database listens.
    pub settings: InfluxDB,
}

/// Whether `client` writes to the database of `settings`.
pub open spec fn writes_to(client: InfluxDBClient, settings: InfluxDB) -> bool {
    &&& client.settings.host@ == settings.host@
    &&& client.settings.port == settings.port
    &&& client.settings.database@ == settings.database@
    &&& option_view(client.settings.prefix) == option_view(settings.prefix)
}

impl InfluxDBClient {
    /// A writer for the database of `settings`.
    pub fn new(settings: &InfluxDB) -> (client: InfluxDBClient)
        ensures
            writes_to(client, *settings),
    {
        let prefix = match &settings.prefix {
            Some(p) => Some(p.clone()),
            None => None,
        };
        InfluxDBClient {
            settings: InfluxDB {
                host: settings.host.clone(),
                port: settings.port,
                database: settings.database.clone(),
                prefix,
            },
        }
    }

    /// The request that writes `line_data`: a post to `/write` under the
    /// database's address, naming the database, with timestamps in
    /// milliseconds.
    pub fn publish(&self, line_data: String) -> (request: WriteRequest)
        ensures
            request.url@ == "http://"@ + self.settings.host@ + ":"@ + decimal(
                self.settings.port as nat,
            ) + "/write"@,
            request.db@ == self.settings.database@,
            request.precision@ == "ms"@,
            request.body@ == line_data@,
    {
        let mut url: Vec<char> = Vec::new();
        push_str(&mut url, self.settings.base_url().as_str());
        push_str(&mut url, "/write");
        WriteRequest {
            url: string_of(&url),
            db: self.settings.database.clone(),
            precision: String::from_str("ms"),
            body: line_data,
        }
    }

    /// What an outcome means: the line is written if and only if the database
    /// answered with the status 204.
    pub fn settle(outcome: WriteOutcome) -> (r: Result<(), InfluxDBClientError>)
        ensures
            r == match outcome {
                WriteOutcome::Status(code) => if code == WRITTEN {
                    Ok::<(), InfluxDBClientError>(())
                } else {
                    Err(InfluxDBClientError::UnexpectedResponse)
                },
                WriteOutcome::TimedOut => Err(InfluxDBClientError::TimedOut),
                WriteOutcome::Failed => Err(InfluxDBClientError::Unknown),
            },
    {
        match outcome {
            WriteOutcome::Status(code) => if code == WRITTEN {
                Ok(())
            } else {
                Err(InfluxDBClientError::UnexpectedResponse)
            },
            WriteOutcome::TimedOut => Err(InfluxDBClientError::TimedOut),
            WriteOutcome::Failed => Err(InfluxDBClientError::Unknown),
        }
    }
}

} // verus!
