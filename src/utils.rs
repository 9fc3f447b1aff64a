use vstd::prelude::*;

verus! {

/// Settings the service runs with.
pub struct Config {
    pub site_external_url: String,
}

/// Relies on std's `SystemTime::now().duration_since(UNIX_EPOCH)` and
/// `Duration::as_millis`: the clock's milliseconds since the Unix epoch, or
/// `None` when the clock reads earlier than the epoch. Nothing is promised of
/// the value: it is whatever the clock says.
#[verifier::external_body]
fn clock_millis() -> (r: Option<u128>) {
    match std::time::SystemTime::now().duration_since(std::time::UNIX_EPOCH) {
        Ok(d) => Some(d.as_millis()),
        Err(_) => None,
    }
}

/// The clock reading `clock` as milliseconds in `i64`: saturated at
/// `i64::MAX`, and 0 for a clock that reads before the epoch.
pub open spec fn millis_of(clock: Option<u128>) -> i64 {
    match clock {
        Some(ms) => if ms <= i64::MAX as u128 {
            ms as i64
        } else {
            i64::MAX
        },
        None => 0,
    }
}

/// Converts a clock reading in milliseconds since the epoch to the `i64`
/// timestamps that rows carry.
pub fn millis_to_i64(clock: Option<u128>) -> (r: i64)
    ensures
        r == millis_of(clock),
        r >= 0,
{
    match clock {
        Some(ms) => if ms <= i64::MAX as u128 {
            ms as i64
        } else {
            i64::MAX
        },
        None => 0,
    }
}

/// The current time in milliseconds since the Unix epoch: the clock's
/// reading, converted by `millis_to_i64`.
pub fn current_time_millis() -> (r: i64)
    ensures
        r >= 0,
{
    millis_to_i64(clock_millis())
}

/// How serious a logged event is.
#[derive(Clone, Copy, Debug, PartialEq, Eq, Structural)]
pub enum SeverityKind {
    Info,
    Warning,
    Error,
    Fatal,
}

pub open spec fn severity_code(s: SeverityKind) -> u8 {
    match s {
        SeverityKind::Info => 0,
        SeverityKind::Warning => 1,
        SeverityKind::Error => 2,
        SeverityKind::Fatal => 3,
    }
}

/// The name each severity is logged under.
pub open spec fn severity_name(s: SeverityKind) -> Seq<char> {
    match s {
        SeverityKind::Info => "INFO"@,
        SeverityKind::Warning => "WARNING"@,
        SeverityKind::Error => "ERROR"@,
        SeverityKind::Fatal => "FATAL"@,
    }
}

impl SeverityKind {
    /// Decodes a severity from its code; an unknown code is handed back.
    pub fn try_from(val: u8) -> (r: Result<SeverityKind, u8>)
        ensures
            r matches Ok(s) ==> severity_code(s) == val,
            r matches Err(v) ==> v == val && val > 3,
            r is Ok <==> val <= 3,
    {
        if val == 0 {
            Ok(SeverityKind::Info)
        } else if val == 1 {
            Ok(SeverityKind::Warning)
        } else if val == 2 {
            Ok(SeverityKind::Error)
        } else if val == 3 {
            Ok(SeverityKind::Fatal)
        } else {
            Err(val)
        }
    }

    /// The code this severity is stored as.
    pub fn code(self) -> (r: u8)
        ensures
            r == severity_code(self),
    {
        match self {
            SeverityKind::Info => 0,
            SeverityKind::Warning => 1,
            SeverityKind::Error => 2,
            SeverityKind::Fatal => 3,
        }
    }

    /// The name this severity is logged under.
    pub fn as_str(self) -> (r: &'static str)
        ensures
            r@ == severity_name(self),
    {
        let r = match self {
            SeverityKind::Info => "INFO",
            SeverityKind::Warning => "WARNING",
            SeverityKind::Error => "ERROR",
            SeverityKind::Fatal => "FATAL",
        };
        proof {
            reveal_strlit("INFO");
            reveal_strlit("WARNING");
            reveal_strlit("ERROR");
            reveal_strlit("FATAL");
        }
        r
    }
}

} // verus!
