//! When updates are applied without being asked for.

use vstd::prelude::*;

use crate::admin::error::{AdminServiceError, ErrorView};
use crate::admin::types::UpdateCheckInfo;
use crate::admin::update_config::RuntimeUpdateConfig;
use crate::clock::{wall_clock_now, WallClock};
use crate::numbers::{
    decimal, decimal_reads_back, four_digits, four_digits_read_back, parse_unsigned, read_u32,
    two_digits, two_digits_read_back, write_four_digits, write_two_digits,
};
use crate::text::{
    before, behind, chars_before, chars_behind, chars_of, index_of_is, is_blank, is_digit,
    parts_around, same_text, trim, trim_chars, trim_keeps_trimmed, trimming_takes_only_blanks,
    trimming_takes_the_blanks, view_opt, views,
};

verus! {

/// The seconds that the scheduler of automatic updates waits before its first look
/// at the clock and between two of them.
pub const TICK_SECONDS: u64 = 30;

/// The hour and minute that a text gives, or what is wrong with it.
pub open spec fn time_of_day(value: Seq<char>) -> Result<(u32, u32), Seq<char>> {
    let s = trim(value);
    let hour = parse_unsigned(before(s, ':'), u32::MAX as nat);
    let minute = parse_unsigned(behind(s, ':'), u32::MAX as nat);
    if s.len() == 0 {
        Err("自动更新时间不能为空"@)
    } else if hour is None || minute is None {
        Err("自动更新时间格式无效："@ + value + "（应为 HH:MM）"@)
    } else if hour.unwrap() > 23 || minute.unwrap() > 59 {
        Err("自动更新时间超出范围："@ + value + "（HH 0-23，MM 0-59）"@)
    } else {
        Ok((hour.unwrap() as u32, minute.unwrap() as u32))
    }
}

/// A time of day as `HH:MM`.
pub open spec fn clock_text(hour: u32, minute: u32) -> Seq<char> {
    two_digits(hour as nat) + seq![':'] + two_digits(minute as nat)
}

/// The `HH:MM` form of the time that a text gives, or what is wrong with it.
pub open spec fn normal_time(value: Seq<char>) -> Result<Seq<char>, Seq<char>> {
    match time_of_day(value) {
        Ok((hour, minute)) => Ok(clock_text(hour, minute)),
        Err(message) => Err(message),
    }
}

fn bad_time(head: &str, value: &str, tail: &str) -> (r: AdminServiceError)
    ensures
        r@ == ErrorView::Invalid(head@ + value@ + tail@),
{
    let mut message = head.to_string();
    message.append(value);
    message.append(tail);
    AdminServiceError::InvalidCredential(message)
}

/// Reads the time at which updates are applied, `HH:MM` in 24 hours; `H:M` will
/// do.
pub fn parse_auto_apply_time(value: &str) -> (r: Result<(u32, u32), AdminServiceError>)
    ensures
        match time_of_day(value@) {
            Ok(time) => r == Ok::<(u32, u32), AdminServiceError>(time),
            Err(message) => r matches Err(e) && e@ == ErrorView::Invalid(message),
        },
{
    let chars = chars_of(value);
    let s = trim_chars(chars.as_slice());
    if s.len() == 0 {
        return Err(AdminServiceError::InvalidCredential("自动更新时间不能为空".to_string()));
    }
    let hour = match read_u32(chars_before(s, ':')) {
        Some(n) => n,
        None => return Err(bad_time("自动更新时间格式无效：", value, "（应为 HH:MM）")),
    };
    let minute = match read_u32(chars_behind(s, ':')) {
        Some(n) => n,
        None => return Err(bad_time("自动更新时间格式无效：", value, "（应为 HH:MM）")),
    };
    if hour > 23 || minute > 59 {
        return Err(bad_time("自动更新时间超出范围：", value, "（HH 0-23，MM 0-59）"));
    }
    Ok((hour, minute))
}

fn write_clock(hour: u32, minute: u32) -> (r: String)
    ensures
        r@ == clock_text(hour, minute),
{
    let mut out = write_two_digits(hour as u64);
    out.push(':');
    out.append(write_two_digits(minute as u64).as_str());
    assert(out@ =~= clock_text(hour, minute));
    out
}

/// Brings a time into the form `HH:MM`.
pub fn normalize_auto_apply_time(value: &str) -> (r: Result<String, AdminServiceError>)
    ensures
        match normal_time(value@) {
            Ok(text) => r matches Ok(s) && s@ == text,
            Err(message) => r matches Err(e) && e@ == ErrorView::Invalid(message),
        },
{
    match parse_auto_apply_time(value) {
        Ok((hour, minute)) => Ok(write_clock(hour, minute)),
        Err(e) => Err(e),
    }
}

/// What the scheduler of automatic updates remembers.
#[derive(Debug)]
pub struct AutoUpdateScheduler {
    /// The minute of the last run, with its date.
    pub last_run_marker: Option<String>,
    /// The versions that were applied, in this order.
    pub applied_versions: Vec<String>,
}

/// What the scheduler of automatic updates does next.
#[derive(Debug, Clone, Copy, PartialEq, Eq, Structural)]
pub enum TickAction {
    /// Nothing.
    Idle,
    /// Report that the configured time is not valid.
    ReportInvalidTime,
    /// Look for an update.
    CheckUpdate,
}

/// A year as a date shows it: four digits, and in front of them a sign where four
/// digits will not do.
pub open spec fn year_text(year: int) -> Seq<char> {
    if year < 0 {
        seq!['-'] + four_digits((-year) as nat)
    } else if year > 9999 {
        seq!['+'] + four_digits(year as nat)
    } else {
        four_digits(year as nat)
    }
}

/// The date that a clock shows, as `YYYY-MM-DD`.
pub open spec fn date_text(clock: WallClock) -> Seq<char> {
    year_text(clock.year as int) + seq!['-'] + two_digits(clock.month as nat) + seq!['-']
        + two_digits(clock.day as nat)
}

/// The minute that a clock shows, with its date.
pub open spec fn minute_marker(clock: WallClock) -> Seq<char> {
    date_text(clock) + seq!['-'] + clock_text(clock.hour, clock.minute)
}

/// What the scheduler does when the clock shows a given time: it looks for an
/// update in the configured minute, once.
pub open spec fn tick_action(
    last_run: Option<Seq<char>>,
    runtime: RuntimeUpdateConfig,
    clock: WallClock,
) -> TickAction {
    if !runtime.auto_apply {
        TickAction::Idle
    } else {
        match time_of_day(runtime.auto_apply_time@) {
            Err(_) => TickAction::ReportInvalidTime,
            Ok((hour, minute)) => if clock.hour == hour && clock.minute == minute && last_run
                != Some(minute_marker(clock)) {
                TickAction::CheckUpdate
            } else {
                TickAction::Idle
            },
        }
    }
}

/// Whether an update that was found is applied: it is newer, it has a version,
/// and this version was not applied yet.
pub open spec fn should_apply(applied: Seq<Seq<char>>, info: UpdateCheckInfo) -> bool {
    info.has_update && info.latest_version@.len() > 0 && !applied.contains(info.latest_version@)
}

/// The versions that count as applied after another one was tried: it joins them
/// if that went well.
pub open spec fn versions_after(
    applied: Seq<Seq<char>>,
    version: Seq<char>,
    success: bool,
) -> Seq<Seq<char>> {
    if success {
        applied.push(version)
    } else {
        applied
    }
}

fn same_as_recorded(recorded: &Option<String>, s: &str) -> (r: bool)
    ensures
        r == (view_opt(*recorded) == Some(s@)),
{
    match recorded {
        Some(t) => same_text(t.as_str(), s),
        None => false,
    }
}

fn write_year(year: i32) -> (r: String)
    ensures
        r@ == year_text(year as int),
{
    let wide: i64 = year as i64;
    let mut out = String::new();
    if wide < 0 {
        out.push('-');
        out.append(write_four_digits((-wide) as u64).as_str());
    } else {
        if wide > 9999 {
            out.push('+');
        }
        out.append(write_four_digits(wide as u64).as_str());
    }
    assert(out@ =~= year_text(year as int));
    out
}

fn write_marker(clock: &WallClock) -> (r: String)
    ensures
        r@ == minute_marker(*clock),
{
    let mut out = write_year(clock.year);
    out.push('-');
    out.append(write_two_digits(clock.month as u64).as_str());
    out.push('-');
    out.append(write_two_digits(clock.day as u64).as_str());
    out.push('-');
    out.append(write_clock(clock.hour, clock.minute).as_str());
    assert(out@ =~= minute_marker(*clock));
    out
}

impl AutoUpdateScheduler {
    /// A scheduler that has done nothing yet.
    pub fn new() -> (r: Self)
        ensures
            r.last_run_marker is None,
            r.applied_versions@.len() == 0,
    {
        AutoUpdateScheduler { last_run_marker: None, applied_versions: Vec::new() }
    }

    /// Decides what to do when the clock shows `clock`, and remembers the minute
    /// if it is to look for an update.
    pub fn tick_at(&mut self, runtime: &RuntimeUpdateConfig, clock: &WallClock) -> (r: TickAction)
        ensures
            r == tick_action(view_opt(old(self).last_run_marker), *runtime, *clock),
            view_opt(final(self).last_run_marker) == (if r == TickAction::CheckUpdate {
                Some(minute_marker(*clock))
            } else {
                view_opt(old(self).last_run_marker)
            }),
            final(self).applied_versions == old(self).applied_versions,
    {
        if !runtime.auto_apply {
            return TickAction::Idle;
        }
        match parse_auto_apply_time(runtime.auto_apply_time.as_str()) {
            Ok((hour, minute)) => {
                let marker = write_marker(clock);
                if clock.hour == hour && clock.minute == minute && !same_as_recorded(
                    &self.last_run_marker,
                    marker.as_str(),
                ) {
                    self.last_run_marker = Some(marker);
                    TickAction::CheckUpdate
                } else {
                    TickAction::Idle
                }
            },
            Err(_) => TickAction::ReportInvalidTime,
        }
    }

    /// Decides what to do now.
    pub fn tick(&mut self, runtime: &RuntimeUpdateConfig) -> (r: TickAction)
        ensures
            exists|clock: WallClock|
                {
                    &&& clock.wf()
                    &&& r == #[trigger] tick_action(
                        view_opt(old(self).last_run_marker),
                        *runtime,
                        clock,
                    )
                    &&& view_opt(final(self).last_run_marker) == (if r == TickAction::CheckUpdate {
                        Some(minute_marker(clock))
                    } else {
                        view_opt(old(self).last_run_marker)
                    })
                },
            final(self).applied_versions == old(self).applied_versions,
    {
        let clock = wall_clock_now();
        self.tick_at(runtime, &clock)
    }

    fn has_applied(&self, version: &str) -> (r: bool)
        ensures
            r == views(self.applied_versions@).contains(version@),
    {
        let mut i: usize = 0;
        while i < self.applied_versions.len()
            invariant
                i <= self.applied_versions@.len(),
                forall|j: int| 0 <= j < i ==> (#[trigger] self.applied_versions@[j])@ != version@,
            decreases self.applied_versions@.len() - i,
        {
            if same_text(self.applied_versions[i].as_str(), version) {
                assert(views(self.applied_versions@)[i as int] == version@);
                return true;
            }
            i = i + 1;
        }
        assert(!views(self.applied_versions@).contains(version@)) by {
            if views(self.applied_versions@).contains(version@) {
                let j = choose|j: int|
                    0 <= j < views(self.applied_versions@).len() && views(
                        self.applied_versions@,
                    )[j] == version@;
                assert(self.applied_versions@[j]@ == version@);
            }
        }
        false
    }

    /// Whether the update that was found is to be applied.
    pub fn wants(&self, info: &UpdateCheckInfo) -> (r: bool)
        ensures
            r == should_apply(views(self.applied_versions@), *info),
    {
        info.has_update && !info.latest_version.as_str().is_empty() && !self.has_applied(
            info.latest_version.as_str(),
        )
    }

    /// Takes note of how applying a version went: the version is remembered if it
    /// went well, so that a failure is tried again.
    pub fn apply_finished(&mut self, version: String, success: bool)
        ensures
            final(self).applied_versions@ == (if success {
                old(self).applied_versions@.push(version)
            } else {
                old(self).applied_versions@
            }),
            views(final(self).applied_versions@) == versions_after(
                views(old(self).applied_versions@),
                version@,
                success,
            ),
            final(self).last_run_marker == old(self).last_run_marker,
    {
        let ghost before = self.applied_versions@;
        if success {
            self.applied_versions.push(version);
            assert(views(self.applied_versions@) =~= views(before).push(version@));
        }
    }
}

impl Default for AutoUpdateScheduler {
    fn default() -> (r: Self)
        ensures
            r.last_run_marker is None,
            r.applied_versions@.len() == 0,
    {
        AutoUpdateScheduler::new()
    }
}

/// The `HH:MM` form of a time gives the same time, so bringing it into that
/// form again changes nothing.
pub proof fn normal_time_reads_back(hour: u32, minute: u32)
    requires
        hour <= 23,
        minute <= 59,
    ensures
        time_of_day(clock_text(hour, minute)) == Ok::<(u32, u32), Seq<char>>((hour, minute)),
        normal_time(clock_text(hour, minute)) == Ok::<Seq<char>, Seq<char>>(
            clock_text(hour, minute),
        ),
        clock_text(hour, minute).len() == 5,
{
    let s = clock_text(hour, minute);
    let h = two_digits(hour as nat);
    let m = two_digits(minute as nat);
    two_digits_read_back(hour as nat, u32::MAX as nat);
    two_digits_read_back(minute as nat, u32::MAX as nat);
    two_digits_are_two(hour as nat);
    two_digits_are_two(minute as nat);
    assert(is_digit(h[0]) && is_digit(h[1]) && is_digit(m[0]) && is_digit(m[1]));
    assert(s[0] == h[0] && s.last() == m[1]);
    trim_keeps_trimmed(s);
    assert(s[0] == h[0] && s[1] == h[1] && s[2] == ':');
    index_of_is(s, ':', 2);
    assert(before(s, ':') =~= h);
    assert(behind(s, ':') =~= m);
}

/// Bringing a valid time into the form `HH:MM` does not change the time.
pub proof fn normalizing_keeps_the_time(value: Seq<char>)
    requires
        time_of_day(value) is Ok,
    ensures
        time_of_day(normal_time(value)->Ok_0) == time_of_day(value),
        normal_time(normal_time(value)->Ok_0) == normal_time(value),
{
    let (hour, minute) = time_of_day(value)->Ok_0;
    normal_time_reads_back(hour, minute);
}

proof fn two_digits_are_two(n: nat)
    requires
        n < 100,
    ensures
        two_digits(n).len() == 2,
{
    reveal_with_fuel(crate::numbers::decimal, 2);
}

proof fn years_differ(a: int, b: int)
    requires
        year_text(a) == year_text(b),
    ensures
        a == b,
{
    let m = if a < 0 { -a } else { a };
    let n = if b < 0 { -b } else { b };
    let max = (m + n) as nat;
    four_digits_read_back(m as nat, max);
    four_digits_read_back(n as nat, max);
    assert(is_digit(four_digits(m as nat)[0]) && is_digit(four_digits(n as nat)[0]));
    let s = year_text(a);
    assert(a < 0 <==> s[0] == '-');
    assert(b < 0 <==> year_text(b)[0] == '-');
    assert(a > 9999 <==> s[0] == '+');
    assert(b > 9999 <==> year_text(b)[0] == '+');
    if a < 0 || a > 9999 {
        assert(s.skip(1) =~= four_digits(m as nat));
    }
    if b < 0 || b > 9999 {
        assert(s.skip(1) =~= four_digits(n as nat));
    }
}

proof fn two_digits_differ(a: nat, b: nat)
    requires
        two_digits(a) == two_digits(b),
    ensures
        a == b,
{
    two_digits_read_back(a, a + b);
    two_digits_read_back(b, a + b);
}

/// Different minutes have different markers, on one day and on different days.
pub proof fn minutes_have_their_own_markers(a: WallClock, b: WallClock)
    requires
        a.wf(),
        b.wf(),
        minute_marker(a) == minute_marker(b),
    ensures
        a == b,
{
    let s = minute_marker(a);
    let y = (s.len() - 12) as int;
    two_digits_are_two(a.month as nat);
    two_digits_are_two(a.day as nat);
    two_digits_are_two(a.hour as nat);
    two_digits_are_two(a.minute as nat);
    two_digits_are_two(b.month as nat);
    two_digits_are_two(b.day as nat);
    two_digits_are_two(b.hour as nat);
    two_digits_are_two(b.minute as nat);
    assert(s.take(y) =~= year_text(a.year as int));
    assert(s.take(y) =~= year_text(b.year as int));
    assert(s.subrange(y + 1, y + 3) =~= two_digits(a.month as nat));
    assert(s.subrange(y + 1, y + 3) =~= two_digits(b.month as nat));
    assert(s.subrange(y + 4, y + 6) =~= two_digits(a.day as nat));
    assert(s.subrange(y + 4, y + 6) =~= two_digits(b.day as nat));
    assert(s.subrange(y + 7, y + 9) =~= two_digits(a.hour as nat));
    assert(s.subrange(y + 7, y + 9) =~= two_digits(b.hour as nat));
    assert(s.subrange(y + 10, y + 12) =~= two_digits(a.minute as nat));
    assert(s.subrange(y + 10, y + 12) =~= two_digits(b.minute as nat));
    years_differ(a.year as int, b.year as int);
    two_digits_differ(a.month as nat, b.month as nat);
    two_digits_differ(a.day as nat, b.day as nat);
    two_digits_differ(a.hour as nat, b.hour as nat);
    two_digits_differ(a.minute as nat, b.minute as nat);
}

/// The scheduler looks for an update in the configured minute of every day: a run
/// in another minute, such as that of the day before, does not keep it from it.
pub proof fn each_day_has_its_check(
    earlier: WallClock,
    runtime: RuntimeUpdateConfig,
    clock: WallClock,
)
    requires
        earlier.wf(),
        clock.wf(),
        earlier != clock,
        runtime.auto_apply,
        time_of_day(runtime.auto_apply_time@) == Ok::<(u32, u32), Seq<char>>(
            (clock.hour, clock.minute),
        ),
    ensures
        tick_action(None, runtime, clock) == TickAction::CheckUpdate,
        tick_action(Some(minute_marker(earlier)), runtime, clock) == TickAction::CheckUpdate,
{
    if minute_marker(earlier) == minute_marker(clock) {
        minutes_have_their_own_markers(earlier, clock);
    }
}

/// Within one minute the scheduler looks for an update at most once.
pub proof fn one_check_per_minute(
    last_run: Option<Seq<char>>,
    runtime: RuntimeUpdateConfig,
    later: RuntimeUpdateConfig,
    clock: WallClock,
)
    requires
        tick_action(last_run, runtime, clock) == TickAction::CheckUpdate,
    ensures
        tick_action(Some(minute_marker(clock)), later, clock) != TickAction::CheckUpdate,
{
}

/// A version that was applied is never applied again, whatever was applied before
/// it and after it.
pub proof fn a_version_is_applied_once(
    before: Seq<Seq<char>>,
    version: Seq<char>,
    after: Seq<Seq<char>>,
    info: UpdateCheckInfo,
)
    requires
        info.latest_version@ == version,
    ensures
        !should_apply(versions_after(before, version, true) + after, info),
{
    assert((before.push(version) + after)[before.len() as int] == version);
}

/// A version that could not be applied is wanted as before.
pub proof fn a_failed_version_is_tried_again(
    before: Seq<Seq<char>>,
    version: Seq<char>,
    info: UpdateCheckInfo,
)
    ensures
        should_apply(versions_after(before, version, false), info) == should_apply(before, info),
{
}

/// With automatic updates switched off the scheduler does nothing.
pub proof fn switched_off_means_idle(
    last_run: Option<Seq<char>>,
    runtime: RuntimeUpdateConfig,
    clock: WallClock,
)
    requires
        !runtime.auto_apply,
    ensures
        tick_action(last_run, runtime, clock) == TickAction::Idle,
{
}

/// A time is an hour and a minute with a colon between them, with or without zeros in
/// front and blanks around it: up to 23:59 it is taken, beyond that it is refused as a
/// bad request.
pub proof fn a_time_is_an_hour_and_a_minute(
    hour: u32,
    minute: u32,
    left: Seq<char>,
    right: Seq<char>,
    value: &str,
    r: Result<(u32, u32), AdminServiceError>,
    normal: Result<String, AdminServiceError>,
)
    requires
        is_blank(left) && is_blank(right),
        value@ == left + (decimal(hour as nat) + seq![':'] + decimal(minute as nat)) + right,
        call_ensures(parse_auto_apply_time, (value,), r),
        call_ensures(normalize_auto_apply_time, (value,), normal),
    ensures
        hour <= 23 && minute <= 59 ==> r == Ok::<(u32, u32), AdminServiceError>((hour, minute)),
        hour <= 23 && minute <= 59 ==> (normal matches Ok(s) && s@ == two_digits(hour as nat)
            + seq![':'] + two_digits(minute as nat)),
        hour > 23 || minute > 59 ==> (r matches Err(e) && e@ == ErrorView::Invalid(
            "自动更新时间超出范围："@ + value@ + "（HH 0-23，MM 0-59）"@,
        )) && (normal matches Err(e) && e@ == ErrorView::Invalid(
            "自动更新时间超出范围："@ + value@ + "（HH 0-23，MM 0-59）"@,
        )),
{
    let h = decimal(hour as nat);
    let m = decimal(minute as nat);
    decimal_reads_back(hour as nat, u32::MAX as nat);
    decimal_reads_back(minute as nat, u32::MAX as nat);
    let s = h + seq![':'] + m;
    assert(is_digit(h[0]) && is_digit(m.last()));
    assert(s[0] == h[0] && s.last() == m.last());
    trimming_takes_the_blanks(left, s, right);
    assert(!h.contains(':')) by {
        if h.contains(':') {
            let i = choose|i: int| 0 <= i < h.len() && h[i] == ':';
            assert(is_digit(h[i]));
        }
    }
    parts_around(h, ':', m);
}

/// A text without a colon, and a blank one, is no time.
pub proof fn a_time_has_a_colon(value: &str, r: Result<(u32, u32), AdminServiceError>)
    requires
        !value@.contains(':'),
        call_ensures(parse_auto_apply_time, (value,), r),
    ensures
        trim(value@).len() == 0 ==> (r matches Err(e) && e@ == ErrorView::Invalid(
            "自动更新时间不能为空"@,
        )),
        trim(value@).len() > 0 ==> (r matches Err(e) && e@ == ErrorView::Invalid(
            "自动更新时间格式无效："@ + value@ + "（应为 HH:MM）"@,
        )),
{
    let s = trim(value@);
    let (a, b) = trimming_takes_only_blanks(value@);
    if s.contains(':') {
        let i = choose|i: int| 0 <= i < s.len() && s[i] == ':';
        assert(value@[a.len() + i] == ':');
    }
    parts_around(s, ':', Seq::empty());
}

/// The scheduler looks for an update exactly if updates are applied without being asked
/// for, the clock shows the configured minute, and it has not looked in this minute yet;
/// then it remembers the minute, and otherwise nothing. A configured time that is none is
/// reported.
pub proof fn the_scheduler_looks_in_its_minute(
    before: AutoUpdateScheduler,
    after: AutoUpdateScheduler,
    runtime: RuntimeUpdateConfig,
    clock: WallClock,
    r: TickAction,
)
    requires
        exists|s: &mut AutoUpdateScheduler| #[trigger]
            call_ensures(AutoUpdateScheduler::tick_at, (s, &runtime, &clock), r) && *s == before
                && *final(s) == after,
    ensures
        r == TickAction::CheckUpdate <==> runtime.auto_apply && time_of_day(
            runtime.auto_apply_time@,
        ) == Ok::<(u32, u32), Seq<char>>((clock.hour, clock.minute)) && view_opt(
            before.last_run_marker,
        ) != Some(minute_marker(clock)),
        r == TickAction::ReportInvalidTime <==> runtime.auto_apply && time_of_day(
            runtime.auto_apply_time@,
        ) is Err,
        r == TickAction::CheckUpdate ==> view_opt(after.last_run_marker) == Some(
            minute_marker(clock),
        ),
        r != TickAction::CheckUpdate ==> view_opt(after.last_run_marker) == view_opt(
            before.last_run_marker,
        ),
        after.applied_versions == before.applied_versions,
{
}

/// A version that was found is applied if it is newer and was never applied before with
/// success; one that could not be applied is tried again.
pub proof fn a_new_version_is_applied_until_it_succeeds(
    start: AutoUpdateScheduler,
    failed: AutoUpdateScheduler,
    done: AutoUpdateScheduler,
    info: UpdateCheckInfo,
    wanted: bool,
    again: bool,
    over: bool,
)
    requires
        call_ensures(AutoUpdateScheduler::wants, (&start, &info), wanted),
        exists|s: &mut AutoUpdateScheduler| #[trigger]
            call_ensures(
                AutoUpdateScheduler::apply_finished,
                (s, info.latest_version, false),
                (),
            ) && *s == start && *final(s) == failed,
        call_ensures(AutoUpdateScheduler::wants, (&failed, &info), again),
        exists|s: &mut AutoUpdateScheduler| #[trigger]
            call_ensures(
                AutoUpdateScheduler::apply_finished,
                (s, info.latest_version, true),
                (),
            ) && *s == failed && *final(s) == done,
        call_ensures(AutoUpdateScheduler::wants, (&done, &info), over),
    ensures
        wanted <==> info.has_update && info.latest_version@.len() > 0 && (forall|i: int|
            0 <= i < start.applied_versions@.len() ==> (#[trigger] start.applied_versions@[i])@
                != info.latest_version@),
        again == wanted,
        !over,
        failed.last_run_marker == start.last_run_marker && done.last_run_marker
            == start.last_run_marker,
{
    let seen = views(start.applied_versions@);
    if seen.contains(info.latest_version@) {
        let i = choose|i: int| 0 <= i < seen.len() && seen[i] == info.latest_version@;
        assert(start.applied_versions@[i]@ == info.latest_version@);
    } else {
        assert forall|i: int| 0 <= i < start.applied_versions@.len() implies (
        #[trigger] start.applied_versions@[i])@ != info.latest_version@ by {
            assert(seen[i] == start.applied_versions@[i]@);
        }
    }
    assert(seen.push(info.latest_version@)[seen.len() as int] == info.latest_version@);
}

/// A scheduler starts without a memory.
pub proof fn a_scheduler_starts_afresh(scheduler: AutoUpdateScheduler)
    requires
        call_ensures(AutoUpdateScheduler::new, (), scheduler),
    ensures
        scheduler.last_run_marker is None,
        scheduler.applied_versions@.len() == 0,
        TICK_SECONDS == 30,
{
}

/// At the moment of the call too the scheduler looks for an update only if updates are
/// applied without being asked for, at a time that is one, and remembers when it does.
pub proof fn the_scheduler_looks_only_when_it_is_told_to(
    before: AutoUpdateScheduler,
    after: AutoUpdateScheduler,
    runtime: RuntimeUpdateConfig,
    r: TickAction,
)
    requires
        exists|s: &mut AutoUpdateScheduler| #[trigger]
            call_ensures(AutoUpdateScheduler::tick, (s, &runtime), r) && *s == before && *final(s)
                == after,
    ensures
        !runtime.auto_apply ==> r == TickAction::Idle,
        runtime.auto_apply && time_of_day(runtime.auto_apply_time@) is Err ==> r
            == TickAction::ReportInvalidTime,
        runtime.auto_apply && time_of_day(runtime.auto_apply_time@) is Ok ==> r
            != TickAction::ReportInvalidTime,
        r == TickAction::CheckUpdate ==> (time_of_day(runtime.auto_apply_time@) matches Ok((h, m))
            && exists|clock: WallClock|
            clock.wf() && clock.hour == h && clock.minute == m && view_opt(after.last_run_marker)
                == Some(#[trigger] minute_marker(clock)) && view_opt(before.last_run_marker)
                != view_opt(after.last_run_marker)),
        r != TickAction::CheckUpdate ==> view_opt(after.last_run_marker) == view_opt(
            before.last_run_marker,
        ),
        after.applied_versions == before.applied_versions,
{
}

} // verus!
