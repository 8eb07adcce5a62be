use chrono::Timelike;
use vstd::prelude::*;

use crate::scheduler::ScheduleSettings;

verus! {

#[verifier::external_type_specification]
#[verifier::external_body]
#[verifier::reject_recursive_types(K)]
#[verifier::reject_recursive_types(V)]
pub struct ExTomlMap<K, V>(toml::map::Map<K, V>);

#[verifier::external_type_specification]
#[verifier::external_body]
pub struct ExTomlValue(toml::Value);

/// What `toml::from_str` reads from a text as a table: `None` when the text is
/// not a TOML document, else the table's integer entries and string entries.
pub uninterp spec fn parsed_toml(text: Seq<char>) -> Option<(Map<Seq<char>, i64>, Map<Seq<char>, Seq<char>>)>;

/// The entries of a TOML table whose values are integers.
pub uninterp spec fn toml_integer_entries(t: toml::map::Map<String, toml::Value>) -> Map<Seq<char>, i64>;

/// The entries of a TOML table whose values are strings.
pub uninterp spec fn toml_string_entries(t: toml::map::Map<String, toml::Value>) -> Map<Seq<char>, Seq<char>>;

/// What `NaiveTime::parse_from_str(s, fmt)` reads, as seconds past midnight.
pub uninterp spec fn parsed_time_of_day(s: Seq<char>, fmt: Seq<char>) -> Option<u32>;

/// Relies on toml::from_str into a toml::Table: whether the text parses, and
/// the table it gives, depend on the text alone.
#[verifier::external_body]
fn parse_toml_table(text: &str) -> (r: Option<toml::map::Map<String, toml::Value>>)
    ensures
        r is Some <==> parsed_toml(text@) is Some,
        r matches Some(t) ==> parsed_toml(text@) == Some(
            (toml_integer_entries(t), toml_string_entries(t)),
        ),
{
    toml::from_str::<toml::Table>(text).ok()
}

/// Relies on toml::map::Map::get: the value under `key`, kept when it is an
/// integer.
#[verifier::external_body]
fn table_integer(t: &toml::map::Map<String, toml::Value>, key: &str) -> (r: Option<i64>)
    ensures
        r == (if toml_integer_entries(*t).contains_key(key@) {
            Some(toml_integer_entries(*t)[key@])
        } else {
            None::<i64>
        }),
{
    match t.get(key) {
        Some(toml::Value::Integer(i)) => Some(*i),
        _ => None,
    }
}

/// Relies on toml::map::Map::get: the value under `key`, kept when it is a
/// string.
#[verifier::external_body]
fn table_string(t: &toml::map::Map<String, toml::Value>, key: &str) -> (r: Option<String>)
    ensures
        r matches Some(v) ==> toml_string_entries(*t).contains_key(key@) && v@
            == toml_string_entries(*t)[key@],
        r is None ==> !toml_string_entries(*t).contains_key(key@),
{
    match t.get(key) {
        Some(toml::Value::String(s)) => Some(s.clone()),
        _ => None,
    }
}

/// Relies on chrono::NaiveTime::parse_from_str, read back through
/// Timelike::num_seconds_from_midnight, which is below 86400 for every
/// NaiveTime.
#[verifier::external_body]
fn parse_time_of_day(s: &str, fmt: &str) -> (r: Option<u32>)
    ensures
        r == parsed_time_of_day(s@, fmt@),
        r matches Some(t) ==> t < 86400,
{
    chrono::NaiveTime::parse_from_str(s, fmt).ok().map(|t| t.num_seconds_from_midnight())
}

/// The format of the daily reset time: hours and minutes, `HH:MM`.
pub open spec fn reset_time_format() -> Seq<char> {
    seq!['%', 'H', ':', '%', 'M']
}

/// The scheduler's tunables, as the configuration file holds them.
#[derive(Clone, Debug)]
pub struct Config {
    pub reminder_interval_minutes: u64,
    /// The time of the daily reset, `HH:MM`.
    pub daily_reset_time: String,
    pub max_reminders_per_day: u32,
}

/// One of the three keys of the configuration file.
#[derive(Clone, Copy, Debug, PartialEq, Eq, Structural)]
pub enum ConfigField {
    ReminderIntervalMinutes,
    DailyResetTime,
    MaxRemindersPerDay,
}

/// Why a configuration text was refused.
#[derive(Clone, Copy, Debug, PartialEq, Eq, Structural)]
pub enum ConfigError {
    /// The text is not a TOML document.
    Syntax,
    /// A key is absent, or holds a value of another type.
    Missing(ConfigField),
    /// An integer key holds a value outside the field's range.
    OutOfRange(ConfigField),
}

pub open spec fn field_key(f: ConfigField) -> Seq<char> {
    match f {
        ConfigField::ReminderIntervalMinutes => "reminder_interval_minutes"@,
        ConfigField::DailyResetTime => "daily_reset_time"@,
        ConfigField::MaxRemindersPerDay => "max_reminders_per_day"@,
    }
}

/// The configuration that a table with these integer and string entries
/// holds: each key must be present with a value of its type; integer keys are
/// checked against their range, in the order of the fields.
pub open spec fn decoded_entries(ints: Map<Seq<char>, i64>, strs: Map<Seq<char>, Seq<char>>) -> Result<(u64, Seq<char>, u32), ConfigError> {
    let ri = field_key(ConfigField::ReminderIntervalMinutes);
    let dr = field_key(ConfigField::DailyResetTime);
    let mr = field_key(ConfigField::MaxRemindersPerDay);
    if !ints.contains_key(ri) {
        Err(ConfigError::Missing(ConfigField::ReminderIntervalMinutes))
    } else if ints[ri] < 0 {
        Err(ConfigError::OutOfRange(ConfigField::ReminderIntervalMinutes))
    } else if !strs.contains_key(dr) {
        Err(ConfigError::Missing(ConfigField::DailyResetTime))
    } else if !ints.contains_key(mr) {
        Err(ConfigError::Missing(ConfigField::MaxRemindersPerDay))
    } else if ints[mr] < 0 || ints[mr] > u32::MAX {
        Err(ConfigError::OutOfRange(ConfigField::MaxRemindersPerDay))
    } else {
        Ok((ints[ri] as u64, strs[dr], ints[mr] as u32))
    }
}

/// The configuration that a TOML table holds.
pub open spec fn decoded(t: toml::map::Map<String, toml::Value>) -> Result<(u64, Seq<char>, u32), ConfigError> {
    decoded_entries(toml_integer_entries(t), toml_string_entries(t))
}

/// The configuration that a TOML text holds.
pub open spec fn decoded_text(text: Seq<char>) -> Result<(u64, Seq<char>, u32), ConfigError> {
    match parsed_toml(text) {
        None => Err(ConfigError::Syntax),
        Some(p) => decoded_entries(p.0, p.1),
    }
}

/// A decoding result, with the configuration seen through its fields.
pub open spec fn result_fields(r: Result<Config, ConfigError>) -> Result<(u64, Seq<char>, u32), ConfigError> {
    match r {
        Ok(c) => Ok(c.fields()),
        Err(e) => Err(e),
    }
}

impl Config {
    /// The view of a configuration: interval, reset time text, daily cap.
    pub open spec fn fields(&self) -> (u64, Seq<char>, u32) {
        (self.reminder_interval_minutes, self.daily_reset_time@, self.max_reminders_per_day)
    }

    /// Reads a configuration from a TOML table.
    pub fn from_toml_table(t: &toml::map::Map<String, toml::Value>) -> (r: Result<Config, ConfigError>)
        ensures
            result_fields(r) == decoded(*t),
    {
        let interval = match table_integer(t, "reminder_interval_minutes") {
            None => return Err(ConfigError::Missing(ConfigField::ReminderIntervalMinutes)),
            Some(i) => i,
        };
        if interval < 0 {
            return Err(ConfigError::OutOfRange(ConfigField::ReminderIntervalMinutes));
        }
        let reset = match table_string(t, "daily_reset_time") {
            None => return Err(ConfigError::Missing(ConfigField::DailyResetTime)),
            Some(s) => s,
        };
        let max = match table_integer(t, "max_reminders_per_day") {
            None => return Err(ConfigError::Missing(ConfigField::MaxRemindersPerDay)),
            Some(i) => i,
        };
        if max < 0 || max > u32::MAX as i64 {
            return Err(ConfigError::OutOfRange(ConfigField::MaxRemindersPerDay));
        }
        Ok(Config {
            reminder_interval_minutes: interval as u64,
            daily_reset_time: reset,
            max_reminders_per_day: max as u32,
        })
    }

    /// Reads a configuration from the text of a TOML document.
    pub fn from_toml_str(text: &str) -> (r: Result<Config, ConfigError>)
        ensures
            result_fields(r) == decoded_text(text@),
    {
        match parse_toml_table(text) {
            None => Err(ConfigError::Syntax),
            Some(t) => Config::from_toml_table(&t),
        }
    }

    /// The reset time in seconds past midnight, or `None` when the text is
    /// not an `HH:MM` time.
    pub fn get_reset_time(&self) -> (r: Option<u32>)
        ensures
            r == parsed_time_of_day(self.daily_reset_time@, reset_time_format()),
            r matches Some(t) ==> t < 86400,
    {
        let fmt = "%H:%M";
        proof {
            reveal_strlit("%H:%M");
        }
        assert(fmt@ =~= reset_time_format());
        parse_time_of_day(self.daily_reset_time.as_str(), fmt)
    }

    /// The scheduler's settings: the reset time is read once, here.
    pub fn schedule_settings(&self) -> (r: ScheduleSettings)
        ensures
            r.reminder_interval_minutes == self.reminder_interval_minutes,
            r.reset_time == parsed_time_of_day(self.daily_reset_time@, reset_time_format()),
            r.max_reminders_per_day == self.max_reminders_per_day,
    {
        ScheduleSettings {
            reminder_interval_minutes: self.reminder_interval_minutes,
            reset_time: self.get_reset_time(),
            max_reminders_per_day: self.max_reminders_per_day,
        }
    }
}

impl Default for Config {
    /// Reminders every 45 minutes, a reset at 06:00, at most 8 reminders a day.
    fn default() -> (r: Config)
        ensures
            r.reminder_interval_minutes == 45,
            r.daily_reset_time@ == "06:00"@,
            r.max_reminders_per_day == 8,
    {
        Config {
            reminder_interval_minutes: 45,
            daily_reset_time: "06:00".to_owned(),
            max_reminders_per_day: 8,
        }
    }
}

} // verus!
