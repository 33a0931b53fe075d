//! Schedule model. Schedules are declarative; the scheduler computes and
//! keeps absolute `next_run_at` instants.

use vstd::prelude::*;

use crate::error::{AppError, AppResult};
use crate::model::zones::{
    fixed_local_to_utc, local_to_utc, mapping_valid, parse_zone, spec_fixed_local_to_utc,
    spec_zone_exists, spec_zone_local_to_utc, utc_zone, zone_local_to_utc, LocalTimeMapping,
    ZoneName,
};
use crate::pattern::{compile_pattern, spec_regex_captures, spec_regex_compiles};
use crate::text::{
    chars_of, decimal, eq_ignore_ascii_case, eq_ignore_ascii_case_spec, format_i64, format_u64,
    join3, owned, parse_i32, signed_decimal, spec_parse_i32, spec_to_lowercase, spec_trim,
    to_lowercase, trim,
};
use crate::time::{nanos_in_range, UtcTime, MAX_NANOS, MIN_NANOS, NANOS_PER_SECOND};

verus! {

/// The zone a `Schedule::At` uses when none is given: the system's own.
pub fn default_timezone() -> (r: String)
    ensures
        r@ == "local"@,
{
    owned("local")
}

/// How a task is scheduled.
#[derive(Debug, PartialEq, Eq)]
pub enum Schedule {
    /// Run once, a relative duration from when the task is created/armed.
    After { hours: u32, minutes: u32, seconds: u32 },
    /// Run once, at a wall-clock time in a named time zone
    /// (IANA name such as "Asia/Shanghai", "utc", a UTC offset, or "local").
    At {
        year: i32,
        month: u32,
        day: u32,
        hour: u32,
        minute: u32,
        second: u32,
        timezone: String,
    },
    /// Run repeatedly at a fixed interval of seconds (must be > 0).
    Every { interval_seconds: u64 },
}

impl Clone for Schedule {
    fn clone(&self) -> (r: Self)
        ensures
            r == *self,
    {
        match self {
            Schedule::After { hours, minutes, seconds } => Schedule::After {
                hours: *hours,
                minutes: *minutes,
                seconds: *seconds,
            },
            Schedule::At { year, month, day, hour, minute, second, timezone } => Schedule::At {
                year: *year,
                month: *month,
                day: *day,
                hour: *hour,
                minute: *minute,
                second: *second,
                timezone: timezone.clone(),
            },
            Schedule::Every { interval_seconds } => Schedule::Every {
                interval_seconds: *interval_seconds,
            },
        }
    }
}

/// What a schedule stands for, with the zone name as a sequence.
pub ghost enum ScheduleView {
    After { hours: u32, minutes: u32, seconds: u32 },
    At { year: i32, month: u32, day: u32, hour: u32, minute: u32, second: u32, timezone: Seq<char> },
    Every { interval_seconds: u64 },
}

impl View for Schedule {
    type V = ScheduleView;

    open spec fn view(&self) -> ScheduleView {
        match self {
            Schedule::After { hours, minutes, seconds } => ScheduleView::After {
                hours: *hours,
                minutes: *minutes,
                seconds: *seconds,
            },
            Schedule::At { year, month, day, hour, minute, second, timezone } => ScheduleView::At {
                year: *year,
                month: *month,
                day: *day,
                hour: *hour,
                minute: *minute,
                second: *second,
                timezone: timezone@,
            },
            Schedule::Every { interval_seconds } => ScheduleView::Every {
                interval_seconds: *interval_seconds,
            },
        }
    }
}

/// What to do when a task's scheduled time has already passed at
/// reconciliation (startup, wake-from-sleep, scheduler wake).
#[derive(Debug, Clone, Copy, PartialEq, Eq, Structural)]
pub enum MisfirePolicy {
    /// Run as soon as possible after the scheduled time was missed.
    RunImmediately,
    /// Skip the missed occurrence (recurring: jump to the next future slot).
    Skip,
}

impl Default for MisfirePolicy {
    fn default() -> (r: Self)
        ensures
            r == MisfirePolicy::RunImmediately,
    {
        MisfirePolicy::RunImmediately
    }
}

/// A resolved time-zone reference for `Schedule::At`.
#[derive(Debug)]
pub enum TzKind {
    /// The machine's system time zone.
    Local,
    /// A fixed offset, in seconds east of UTC.
    Fixed(i32),
    /// A zone of the IANA database (handles daylight saving).
    Named(ZoneName),
}

/// What a `TzKind` stands for.
pub ghost enum ZoneRef {
    Local,
    Fixed(int),
    Named(Seq<char>),
}

impl View for TzKind {
    type V = ZoneRef;

    open spec fn view(&self) -> ZoneRef {
        match self {
            TzKind::Local => ZoneRef::Local,
            TzKind::Fixed(o) => ZoneRef::Fixed(*o as int),
            TzKind::Named(z) => ZoneRef::Named(z@),
        }
    }
}

impl Clone for TzKind {
    fn clone(&self) -> (r: Self)
        ensures
            r@ == self@,
    {
        match self {
            TzKind::Local => TzKind::Local,
            TzKind::Fixed(o) => TzKind::Fixed(*o),
            TzKind::Named(z) => TzKind::Named(z.clone()),
        }
    }
}

// ---------------------------------------------------------------------------
// Messages
// ---------------------------------------------------------------------------

/// `e` is an `InvalidSchedule` error whose text is `msg`.
pub open spec fn schedule_error(e: AppError, msg: Seq<char>) -> bool {
    e matches AppError::InvalidSchedule(m) && m@ == msg
}

/// `r` is what `expected` describes, an `Err` standing for `InvalidSchedule`
/// with that text.
pub open spec fn agrees<T>(r: AppResult<T>, expected: Result<T, Seq<char>>) -> bool {
    match expected {
        Ok(v) => r == Ok::<T, AppError>(v),
        Err(msg) => r matches Err(e) && schedule_error(e, msg),
    }
}

pub open spec fn zero_delay_message() -> Seq<char> {
    "relative delay must be greater than zero"@
}

pub open spec fn zero_interval_message() -> Seq<char> {
    "recurring interval must be greater than zero"@
}

pub open spec fn one_shot_message() -> Seq<char> {
    "one-shot schedules have no next occurrence"@
}

pub open spec fn components_message(
    year: i32,
    month: u32,
    day: u32,
    hour: u32,
    minute: u32,
    second: u32,
) -> Seq<char> {
    "invalid date/time components "@ + signed_decimal(year as int) + "-"@ + decimal(month as nat)
        + "-"@ + decimal(day as nat) + " "@ + decimal(hour as nat) + ":"@ + decimal(
        minute as nat,
    ) + ":"@ + decimal(second as nat)
}

pub open spec fn range_message() -> Seq<char> {
    "schedule time is out of range"@
}

pub open spec fn past_message() -> Seq<char> {
    "absolute deadline is in the past"@
}

pub open spec fn gap_message(timezone: Seq<char>) -> Seq<char> {
    "date/time does not exist in timezone '"@ + timezone + "' (DST gap?)"@
}

pub open spec fn bad_offset_message(name: Seq<char>) -> Seq<char> {
    "invalid UTC offset '"@ + name + "'"@
}

pub open spec fn unknown_zone_message(name: Seq<char>) -> Seq<char> {
    "unknown timezone '"@ + name
        + "' (use an IANA name like Asia/Shanghai, a UTC offset like UTC+8, or 'local')"@
}

/// The grammar of fixed UTC offsets ("utc+8", "gmt-05:30", "+09:00", ...),
/// applied to the lowercased name.
pub open spec fn offset_pattern_text() -> Seq<char> {
    "^(?:utc|gmt)?([+-])(\\d{1,2})(?::?(\\d{2}))?$"@
}

fn offset_pattern() -> (r: &'static str)
    ensures
        r@ == offset_pattern_text(),
{
    "^(?:utc|gmt)?([+-])(\\d{1,2})(?::?(\\d{2}))?$"
}

// ---------------------------------------------------------------------------
// Time-zone resolution
// ---------------------------------------------------------------------------

/// The text of capture group `i`, empty when the group is absent.
pub open spec fn group_text(groups: Seq<Option<Seq<char>>>, i: int) -> Seq<char> {
    if 0 <= i < groups.len() && groups[i] is Some {
        groups[i]->0
    } else {
        Seq::empty()
    }
}

/// `t.parse::<i32>().unwrap_or(0)`.
pub open spec fn parsed_or_zero(t: Seq<char>) -> int {
    match spec_parse_i32(t) {
        Some(v) => v,
        None => 0,
    }
}

/// The fixed offset described by the captures of the offset grammar.
pub open spec fn offset_from_groups(name: Seq<char>, groups: Seq<Option<Seq<char>>>) -> Result<
    ZoneRef,
    Seq<char>,
> {
    let sign: int = if group_text(groups, 1) == seq!['-'] { -1 } else { 1 };
    let hours = parsed_or_zero(group_text(groups, 2));
    let minutes = if 3 < groups.len() && groups[3] is Some {
        parsed_or_zero(groups[3]->0)
    } else {
        0
    };
    if hours > 23 || minutes > 59 {
        Err(bad_offset_message(name))
    } else {
        let secs = sign * (hours * 3600 + minutes * 60);
        if -86400 < secs < 86400 {
            Ok(ZoneRef::Fixed(secs))
        } else {
            Err(bad_offset_message(name))
        }
    }
}

/// The captures of the offset grammar on `text`, if it compiles and matches.
pub open spec fn offset_captures(text: Seq<char>) -> Option<Seq<Option<Seq<char>>>> {
    if spec_regex_compiles(offset_pattern_text()) {
        spec_regex_captures(offset_pattern_text(), text)
    } else {
        None
    }
}

/// How a time-zone name resolves: "local"/"system"/"" to the system zone,
/// "utc"/"z"/"gmt" to UTC (any ASCII case, surrounding whitespace ignored),
/// fixed offsets by the offset grammar, otherwise an IANA zone name; an
/// `Err` holds the text of the `InvalidSchedule` error.
pub open spec fn spec_resolve_timezone(name: Seq<char>) -> Result<ZoneRef, Seq<char>> {
    let n = spec_trim(name);
    if n.len() == 0 || eq_ignore_ascii_case_spec(n, "local"@) || eq_ignore_ascii_case_spec(
        n,
        "system"@,
    ) {
        Ok(ZoneRef::Local)
    } else if eq_ignore_ascii_case_spec(n, "utc"@) || eq_ignore_ascii_case_spec(n, "z"@)
        || eq_ignore_ascii_case_spec(n, "gmt"@) {
        Ok(ZoneRef::Named("UTC"@))
    } else {
        match offset_captures(spec_to_lowercase(n)) {
            Some(groups) => offset_from_groups(name, groups),
            None => if spec_zone_exists(n) {
                Ok(ZoneRef::Named(n))
            } else {
                Err(unknown_zone_message(name))
            },
        }
    }
}

/// The names of UTC ("utc", "z", "gmt", in any ASCII case, with surrounding
/// whitespace) all resolve to the same zone, so an absolute schedule means
/// the same instant under each of them.
pub proof fn utc_aliases_resolve_alike(name: Seq<char>)
    requires
        eq_ignore_ascii_case_spec(spec_trim(name), "utc"@) || eq_ignore_ascii_case_spec(
            spec_trim(name),
            "z"@,
        ) || eq_ignore_ascii_case_spec(spec_trim(name), "gmt"@),
    ensures
        spec_resolve_timezone(name) == Ok::<ZoneRef, Seq<char>>(ZoneRef::Named("UTC"@)),
{
    reveal_strlit("utc");
    reveal_strlit("z");
    reveal_strlit("gmt");
    reveal_strlit("local");
    reveal_strlit("system");
}

/// The machine's own zone is named "local" or "system" (any ASCII case,
/// surrounding whitespace ignored), or by no name at all: each of these
/// resolves to the system zone, never to UTC or another named zone, so an
/// absolute schedule in it is mapped through the machine's zone.
pub proof fn machine_zone_names_resolve_to_the_machine_zone(name: Seq<char>)
    requires
        spec_trim(name).len() == 0 || eq_ignore_ascii_case_spec(spec_trim(name), "local"@)
            || eq_ignore_ascii_case_spec(spec_trim(name), "system"@),
    ensures
        spec_resolve_timezone(name) == Ok::<ZoneRef, Seq<char>>(ZoneRef::Local),
        spec_resolve_timezone(name) != Ok::<ZoneRef, Seq<char>>(ZoneRef::Named("UTC"@)),
        forall|year: i32, month: u32, day: u32, hour: u32, minute: u32, second: u32|
            #![trigger spec_zone_mapping(ZoneRef::Local, year, month, day, hour, minute, second)]
            spec_zone_mapping(ZoneRef::Local, year, month, day, hour, minute, second) is None,
{
    reveal_strlit("local");
    reveal_strlit("system");
}

/// How wall-clock components map to instants in a zone, where that is a
/// function of the zone (`None` for the machine's own zone).
pub open spec fn spec_zone_mapping(
    k: ZoneRef,
    year: i32,
    month: u32,
    day: u32,
    hour: u32,
    minute: u32,
    second: u32,
) -> Option<LocalTimeMapping> {
    match k {
        ZoneRef::Local => None,
        ZoneRef::Fixed(o) => Some(
            spec_fixed_local_to_utc(o as i32, year, month, day, hour, minute, second),
        ),
        ZoneRef::Named(n) => Some(
            spec_zone_local_to_utc(n, year, month, day, hour, minute, second),
        ),
    }
}

fn is_minus(s: &str) -> (r: bool)
    ensures
        r == (s@ == seq!['-']),
{
    let c = chars_of(s);
    let r = c.len() == 1 && c[0] == '-';
    proof {
        if r {
            assert(s@ =~= seq!['-']);
        }
    }
    r
}

fn parse_or_zero(s: &str) -> (r: i32)
    ensures
        r == parsed_or_zero(s@),
{
    match parse_i32(s) {
        Some(v) => v,
        None => 0,
    }
}

fn bad_offset(name: &str) -> (e: AppError)
    ensures
        schedule_error(e, bad_offset_message(name@)),
{
    AppError::InvalidSchedule(join3("invalid UTC offset '", name, "'"))
}

fn offset_from_captures(name: &str, groups: &Vec<Option<String>>) -> (r: AppResult<TzKind>)
    ensures
        match r {
            Ok(k) => offset_from_groups(name@, groups.deep_view()) == Ok::<ZoneRef, Seq<char>>(
                k@,
            ),
            Err(e) => offset_from_groups(name@, groups.deep_view()) matches Err(m)
                && schedule_error(e, m),
        },
{
    let ghost g = groups.deep_view();
    let sign: i64 = if groups.len() > 1 {
        match &groups[1] {
            Some(t) => if is_minus(t.as_str()) {
                -1
            } else {
                1
            },
            None => 1,
        }
    } else {
        1
    };
    let hours: i32 = if groups.len() > 2 {
        match &groups[2] {
            Some(t) => parse_or_zero(t.as_str()),
            None => 0,
        }
    } else {
        0
    };
    let minutes: i32 = if groups.len() > 3 {
        match &groups[3] {
            Some(t) => parse_or_zero(t.as_str()),
            None => 0,
        }
    } else {
        0
    };
    proof {
        assert(sign == (if group_text(g, 1) == seq!['-'] { -1int } else { 1int }));
        assert(hours == parsed_or_zero(group_text(g, 2)));
        if 3 < g.len() && g[3] is Some {
            assert(minutes == parsed_or_zero(g[3]->0));
        } else {
            assert(minutes == 0);
        }
    }
    if hours > 23 || minutes > 59 {
        return Err(bad_offset(name));
    }
    let secs: i64 = sign * ((hours as i64) * 3600 + (minutes as i64) * 60);
    if -86400 < secs && secs < 86400 {
        Ok(TzKind::Fixed(secs as i32))
    } else {
        Err(bad_offset(name))
    }
}

/// Resolve a time-zone name: "local"/"" (system), "utc", fixed offsets like
/// "UTC+8" / "GMT-05:30", or any IANA name ("Asia/Shanghai").
pub fn resolve_timezone(name: &str) -> (r: AppResult<TzKind>)
    ensures
        match r {
            Ok(k) => spec_resolve_timezone(name@) == Ok::<ZoneRef, Seq<char>>(k@),
            Err(e) => spec_resolve_timezone(name@) matches Err(m) && schedule_error(e, m),
        },
        r matches Ok(TzKind::Fixed(o)) ==> -86400 < o < 86400,
{
    let trimmed = trim(name);
    let n = trimmed.as_str();
    if n.is_empty() || eq_ignore_ascii_case(n, "local") || eq_ignore_ascii_case(n, "system") {
        return Ok(TzKind::Local);
    }
    if eq_ignore_ascii_case(n, "utc") || eq_ignore_ascii_case(n, "z") || eq_ignore_ascii_case(
        n,
        "gmt",
    ) {
        return Ok(TzKind::Named(utc_zone()));
    }
    let lower = to_lowercase(n);
    let captured = match compile_pattern(offset_pattern()) {
        Ok(p) => p.captures(lower.as_str()),
        Err(_) => None,
    };
    match captured {
        Some(groups) => offset_from_captures(name, &groups),
        None => match parse_zone(n) {
            Some(z) => Ok(TzKind::Named(z)),
            None => Err(
                AppError::InvalidSchedule(
                    join3(
                        "unknown timezone '",
                        name,
                        "' (use an IANA name like Asia/Shanghai, a UTC offset like UTC+8, or 'local')",
                    ),
                ),
            ),
        },
    }
}

impl TzKind {
    /// The offset of a fixed zone is less than a day.
    pub open spec fn well_formed(&self) -> bool {
        self matches TzKind::Fixed(o) ==> -86400 < *o < 86400
    }

    /// Resolve wall-clock components in this zone to UTC instants.
    pub fn with_ymd_and_hms(
        &self,
        year: i32,
        month: u32,
        day: u32,
        hour: u32,
        minute: u32,
        second: u32,
    ) -> (r: LocalTimeMapping)
        requires
            self.well_formed(),
        ensures
            spec_zone_mapping(self@, year, month, day, hour, minute, second) matches Some(m)
                ==> r == m,
            self is Fixed ==> !(r is Ambiguous),
            mapping_valid(r),
    {
        match self {
            TzKind::Local => local_to_utc(year, month, day, hour, minute, second),
            TzKind::Fixed(o) => fixed_local_to_utc(*o, year, month, day, hour, minute, second),
            TzKind::Named(z) => zone_local_to_utc(z, year, month, day, hour, minute, second),
        }
    }
}

// ---------------------------------------------------------------------------
// Validation and next-run computation
// ---------------------------------------------------------------------------

/// The wall-clock components are within their ranges.
pub open spec fn components_valid(month: u32, day: u32, hour: u32, minute: u32, second: u32) -> bool {
    1 <= month <= 12 && 1 <= day <= 31 && hour <= 23 && minute <= 59 && second <= 59
}

/// What the existence check of validation makes of the mapping of the
/// wall-clock time: a time that does not exist in the zone (a gap) is an
/// error.
pub open spec fn validation_outcome(m: LocalTimeMapping, timezone: Seq<char>) -> Result<(), Seq<char>> {
    if m is Missing {
        Err(gap_message(timezone))
    } else {
        Ok(())
    }
}

/// What an absolute schedule's first run is, once the wall-clock time is
/// mapped in its zone: the single instant when it is later than `from`; a
/// deadline already past is refused; a gap or a fold is an error.
pub open spec fn at_outcome(m: LocalTimeMapping, timezone: Seq<char>, from: UtcTime) -> Result<
    UtcTime,
    Seq<char>,
> {
    match m {
        LocalTimeMapping::Single(t) => if t.nanos > from.nanos {
            Ok(t)
        } else {
            Err(past_message())
        },
        _ => Err(gap_message(timezone)),
    }
}

/// Validation's existence check on a mapping.
pub fn check_mapping(m: &LocalTimeMapping, timezone: &str) -> (r: AppResult<()>)
    ensures
        agrees(r, validation_outcome(*m, timezone@)),
{
    if let LocalTimeMapping::Missing = m {
        return Err(gap_error(timezone));
    }
    Ok(())
}

/// The first run of an absolute schedule from the mapping of its wall-clock
/// time.
pub fn single_instant(m: LocalTimeMapping, timezone: &str, from: UtcTime) -> (r: AppResult<UtcTime>)
    ensures
        agrees(r, at_outcome(m, timezone@, from)),
{
    match m {
        LocalTimeMapping::Single(t) => {
            if t.nanos > from.nanos {
                Ok(t)
            } else {
                Err(AppError::InvalidSchedule(owned("absolute deadline is in the past")))
            }
        },
        _ => Err(gap_error(timezone)),
    }
}

/// What validating an absolute schedule may give: component range errors,
/// time-zone errors, then a gap error when the wall-clock time does not exist
/// in the zone. For the machine's own zone the mapping depends on the
/// machine: the result is the check of some mapping of representable
/// instants.
pub open spec fn at_validation_allows(
    year: i32,
    month: u32,
    day: u32,
    hour: u32,
    minute: u32,
    second: u32,
    timezone: Seq<char>,
    r: AppResult<()>,
) -> bool {
    if !components_valid(month, day, hour, minute, second) {
        agrees(r, Err(components_message(year, month, day, hour, minute, second)))
    } else {
        match spec_resolve_timezone(timezone) {
            Err(msg) => agrees(r, Err(msg)),
            Ok(k) => match spec_zone_mapping(k, year, month, day, hour, minute, second) {
                Some(m) => agrees(r, validation_outcome(m, timezone)),
                None => exists|m: LocalTimeMapping|
                    mapping_valid(m) && agrees(r, #[trigger] validation_outcome(m, timezone)),
            },
        }
    }
}

/// What computing the first run of an absolute schedule may give: the
/// validation errors, else the outcome of the mapping of the wall-clock time
/// in the zone (for the machine's own zone, of some mapping of representable
/// instants).
pub open spec fn at_first_run_allows(
    year: i32,
    month: u32,
    day: u32,
    hour: u32,
    minute: u32,
    second: u32,
    timezone: Seq<char>,
    from: UtcTime,
    r: AppResult<UtcTime>,
) -> bool {
    if !components_valid(month, day, hour, minute, second) {
        agrees(r, Err(components_message(year, month, day, hour, minute, second)))
    } else {
        match spec_resolve_timezone(timezone) {
            Err(msg) => agrees(r, Err(msg)),
            Ok(k) => match spec_zone_mapping(k, year, month, day, hour, minute, second) {
                Some(m) => agrees(r, at_outcome(m, timezone, from)),
                None => exists|m: LocalTimeMapping|
                    mapping_valid(m) && agrees(r, #[trigger] at_outcome(m, timezone, from)),
            },
        }
    }
}

/// The first recurring slot strictly after `now`: `scheduled + k * step` for
/// the least `k >= 1` that is later than `now`.
pub open spec fn next_slot(scheduled: UtcTime, now: UtcTime, step_secs: int) -> int {
    let step = step_secs * NANOS_PER_SECOND;
    let k = if now.nanos < scheduled.nanos + step {
        1
    } else {
        (now.nanos - scheduled.nanos) / step + 1
    };
    scheduled.nanos + k * step
}

/// The instant `nanos` when it is representable; otherwise the range error.
pub open spec fn in_range_or_error(nanos: int) -> Result<UtcTime, Seq<char>> {
    if nanos_in_range(nanos) {
        Ok(UtcTime { nanos: nanos as i128 })
    } else {
        Err(range_message())
    }
}

/// Total seconds of a relative delay.
pub open spec fn delay_seconds(hours: u32, minutes: u32, seconds: u32) -> int {
    hours * 3600 + minutes * 60 + seconds
}

impl Schedule {
    /// What `validate` may give for this schedule.
    pub open spec fn validation_allows(self, r: AppResult<()>) -> bool {
        match self {
            Schedule::After { hours, minutes, seconds } => agrees(
                r,
                if hours == 0 && minutes == 0 && seconds == 0 {
                    Err(zero_delay_message())
                } else {
                    Ok(())
                },
            ),
            Schedule::At { year, month, day, hour, minute, second, timezone } =>
                at_validation_allows(year, month, day, hour, minute, second, timezone@, r),
            Schedule::Every { interval_seconds } => agrees(
                r,
                if interval_seconds == 0 {
                    Err(zero_interval_message())
                } else {
                    Ok(())
                },
            ),
        }
    }

    /// Every error validation can report is one `first_run_at` can report.
    pub proof fn lemma_validation_error_is_first_run_error(self, from: UtcTime, e: AppError)
        requires
            self.validation_allows(Err(e)),
        ensures
            self.first_run_allows(from, Err(e)),
    {
        if let Schedule::At { year, month, day, hour, minute, second, timezone } = self {
            if components_valid(month, day, hour, minute, second) {
                if let Ok(k) = spec_resolve_timezone(timezone@) {
                    if spec_zone_mapping(k, year, month, day, hour, minute, second) is None {
                        let m = choose|m: LocalTimeMapping|
                            mapping_valid(m) && agrees(
                                Err::<(), AppError>(e),
                                #[trigger] validation_outcome(m, timezone@),
                            );
                        assert(agrees(Err::<UtcTime, AppError>(e), at_outcome(m, timezone@, from)));
                    }
                }
            }
        }
    }

    /// What `first_run_at(from)` may give for this schedule.
    pub open spec fn first_run_allows(self, from: UtcTime, r: AppResult<UtcTime>) -> bool {
        match self {
            Schedule::After { hours, minutes, seconds } => agrees(
                r,
                if hours == 0 && minutes == 0 && seconds == 0 {
                    Err(zero_delay_message())
                } else {
                    in_range_or_error(from.nanos + delay_seconds(hours, minutes, seconds) * NANOS_PER_SECOND)
                },
            ),
            Schedule::At { year, month, day, hour, minute, second, timezone } =>
                at_first_run_allows(year, month, day, hour, minute, second, timezone@, from, r),
            Schedule::Every { interval_seconds } => agrees(
                r,
                if interval_seconds == 0 {
                    Err(zero_interval_message())
                } else {
                    in_range_or_error(from.nanos + interval_seconds * NANOS_PER_SECOND)
                },
            ),
        }
    }

    /// What `next_after(scheduled, now)` may give for this schedule.
    pub open spec fn next_allows(self, scheduled: UtcTime, now: UtcTime, r: AppResult<UtcTime>) -> bool {
        match self {
            Schedule::After { hours, minutes, seconds } => agrees(
                r,
                if hours == 0 && minutes == 0 && seconds == 0 {
                    Err(zero_delay_message())
                } else {
                    Err(one_shot_message())
                },
            ),
            Schedule::At { year, month, day, hour, minute, second, timezone } => {
                ||| at_validation_allows(year, month, day, hour, minute, second, timezone@, Ok(()))
                    && agrees(r, Err(one_shot_message()))
                ||| (r is Err && at_validation_allows(
                    year,
                    month,
                    day,
                    hour,
                    minute,
                    second,
                    timezone@,
                    match r {
                        Err(e) => Err::<(), AppError>(e),
                        Ok(_) => Ok(()),
                    },
                ))
            },
            Schedule::Every { interval_seconds } => agrees(
                r,
                if interval_seconds == 0 {
                    Err(zero_interval_message())
                } else {
                    in_range_or_error(next_slot(scheduled, now, interval_seconds as int))
                },
            ),
        }
    }
}

/// Recurring schedules never drift: the next slot lies on the grid of whole
/// intervals counted from the scheduled time, is strictly after `now`, and is
/// the first such slot (either one interval after the scheduled time, or the
/// slot before it is not after `now`).
pub proof fn next_slot_is_first_future_grid_point(scheduled: UtcTime, now: UtcTime, step_secs: int)
    requires
        step_secs > 0,
    ensures
        ({
            let step = step_secs * NANOS_PER_SECOND;
            let next = next_slot(scheduled, now, step_secs);
            &&& next > now.nanos
            &&& next - scheduled.nanos >= step
            &&& (next - scheduled.nanos) % step == 0
            &&& (next - step <= now.nanos || next == scheduled.nanos + step)
        }),
{
    let step = step_secs * NANOS_PER_SECOND;
    assert(step > 0) by (nonlinear_arith)
        requires
            step_secs > 0,
            step == step_secs * NANOS_PER_SECOND,
    ;
    let next = next_slot(scheduled, now, step_secs);
    if now.nanos < scheduled.nanos + step {
        assert(next == scheduled.nanos + step);
        vstd::arithmetic::div_mod::lemma_mod_multiples_vanish(1, 0, step);
        assert(step * 1 + 0 == step);
    } else {
        let x = now.nanos - scheduled.nanos;
        let q = x / step;
        let r = x % step;
        vstd::arithmetic::div_mod::lemma_fundamental_div_mod(x, step);
        vstd::arithmetic::div_mod::lemma_mod_bound(x, step);
        vstd::arithmetic::div_mod::lemma_div_pos_is_pos(x, step);
        assert(next == scheduled.nanos + (q + 1) * step);
        assert((q + 1) * step == step * q + step) by (nonlinear_arith);
        vstd::arithmetic::div_mod::lemma_mod_multiples_vanish(q + 1, 0, step);
        assert(step * (q + 1) + 0 == (q + 1) * step) by (nonlinear_arith);
        assert(q * step >= 0) by (nonlinear_arith)
            requires
                q >= 0,
                step > 0,
        ;
    }
}

fn components_error(
    year: i32,
    month: u32,
    day: u32,
    hour: u32,
    minute: u32,
    second: u32,
) -> (e: AppError)
    ensures
        schedule_error(e, components_message(year, month, day, hour, minute, second)),
{
    let mut m = owned("invalid date/time components ");
    m.append(format_i64(year as i64).as_str());
    m.append("-");
    m.append(format_u64(month as u64).as_str());
    m.append("-");
    m.append(format_u64(day as u64).as_str());
    m.append(" ");
    m.append(format_u64(hour as u64).as_str());
    m.append(":");
    m.append(format_u64(minute as u64).as_str());
    m.append(":");
    m.append(format_u64(second as u64).as_str());
    AppError::InvalidSchedule(m)
}

/// The instant `nanos`, or the range error when it is not representable.
fn in_range(nanos: i128) -> (r: AppResult<UtcTime>)
    ensures
        agrees(r, in_range_or_error(nanos as int)),
        r matches Ok(t) ==> t.valid(),
{
    if MIN_NANOS <= nanos && nanos <= MAX_NANOS {
        Ok(UtcTime { nanos })
    } else {
        Err(AppError::InvalidSchedule(owned("schedule time is out of range")))
    }
}

fn gap_error(timezone: &str) -> (e: AppError)
    ensures
        schedule_error(e, gap_message(timezone@)),
{
    AppError::InvalidSchedule(join3("date/time does not exist in timezone '", timezone, "' (DST gap?)"))
}

impl Schedule {
    /// Validate schedule semantics (non-zero delays and intervals, existing
    /// wall-clock times in known zones).
    pub fn validate(&self) -> (r: AppResult<()>)
        ensures
            self.validation_allows(r),
    {
        match self {
            Schedule::After { hours, minutes, seconds } => {
                if *hours == 0 && *minutes == 0 && *seconds == 0 {
                    return Err(AppError::InvalidSchedule(owned("relative delay must be greater than zero")));
                }
                Ok(())
            },
            Schedule::At { year, month, day, hour, minute, second, timezone } => {
                if !(1 <= *month && *month <= 12) || !(1 <= *day && *day <= 31) || *hour > 23
                    || *minute > 59 || *second > 59 {
                    return Err(components_error(*year, *month, *day, *hour, *minute, *second));
                }
                let tz = resolve_timezone(timezone.as_str())?;
                let dt = tz.with_ymd_and_hms(*year, *month, *day, *hour, *minute, *second);
                check_mapping(&dt, timezone.as_str())
            },
            Schedule::Every { interval_seconds } => {
                if *interval_seconds == 0 {
                    return Err(AppError::InvalidSchedule(owned("recurring interval must be greater than zero")));
                }
                Ok(())
            },
        }
    }

    /// The first `next_run_at` for this schedule, starting from `from`.
    pub fn first_run_at(&self, from: UtcTime) -> (r: AppResult<UtcTime>)
        requires
            from.valid(),
        ensures
            self.first_run_allows(from, r),
            r matches Ok(t) ==> t.valid(),
    {
        if let Err(e) = self.validate() {
            proof {
                self.lemma_validation_error_is_first_run_error(from, e);
            }
            return Err(e);
        }
        match self {
            Schedule::After { hours, minutes, seconds } => {
                let total: i128 = (*hours as i128) * 3600 + (*minutes as i128) * 60 + (*seconds as i128);
                in_range(from.nanos + total * NANOS_PER_SECOND)
            },
            Schedule::At { year, month, day, hour, minute, second, timezone } => {
                let tz = resolve_timezone(timezone.as_str())?;
                let dt = tz.with_ymd_and_hms(*year, *month, *day, *hour, *minute, *second);
                single_instant(dt, timezone.as_str(), from)
            },
            Schedule::Every { interval_seconds } => {
                in_range(from.nanos + (*interval_seconds as i128) * NANOS_PER_SECOND)
            },
        }
    }

    /// The next occurrence of a recurring schedule after it was scheduled
    /// for `scheduled`, given the current time `now`: computed from the
    /// *scheduled* time in whole intervals, so lateness never accumulates.
    /// One-shot schedules have none.
    pub fn next_after(&self, scheduled: UtcTime, now: UtcTime) -> (r: AppResult<UtcTime>)
        requires
            scheduled.valid(),
            now.valid(),
        ensures
            self.next_allows(scheduled, now, r),
            r matches Ok(t) ==> t.valid(),
    {
        self.validate()?;
        match self {
            Schedule::Every { interval_seconds } => {
                let step: i128 = (*interval_seconds as i128) * NANOS_PER_SECOND;
                let first: i128 = scheduled.nanos + step;
                if now.nanos < first {
                    in_range(first)
                } else {
                    let d: i128 = now.nanos - scheduled.nanos;
                    let k: i128 = d / step + 1;
                    proof {
                        let q = d / step;
                        let rem = d % step;
                        vstd::arithmetic::div_mod::lemma_fundamental_div_mod(d as int, step as int);
                        vstd::arithmetic::div_mod::lemma_mod_pos_bound(d as int, step as int);
                        assert(k * step <= d + step && k * step > 0) by (nonlinear_arith)
                            requires
                                d == step * q + rem,
                                0 <= rem < step,
                                k == q + 1,
                                d >= step,
                                step > 0,
                        ;
                    }
                    proof {
                        assert(k * step == next_slot(scheduled, now, *interval_seconds as int)
                            - scheduled.nanos);
                    }
                    in_range(scheduled.nanos + k * step)
                }
            },
            _ => Err(AppError::InvalidSchedule(owned("one-shot schedules have no next occurrence"))),
        }
    }

    /// A recurring schedule of `duration` (whole seconds).
    pub fn every(duration: core::time::Duration) -> (r: Schedule)
        ensures
            r == (Schedule::Every { interval_seconds: spec_duration_secs(duration) }),
    {
        Schedule::Every { interval_seconds: duration.as_secs() }
    }
}

/// What `Duration::as_secs` returns for a duration: its whole seconds (the
/// duration is opaque here, so the value is named, not computed).
pub uninterp spec fn spec_duration_secs(d: core::time::Duration) -> u64;

/// `Duration::as_secs`: the whole seconds of a duration, a function of the
/// duration alone.
pub assume_specification[ core::time::Duration::as_secs ](d: &core::time::Duration) -> (r: u64)
    ensures
        r == spec_duration_secs(*d),
;

} // verus!
