//! Dates and times on the wall clock, as plain numbers.
//!
//! A [`Stempel`] is any seven numbers; a [`Tidspunkt`] is a `Stempel` that
//! names a moment which the calendar and the clock have. Reading a text as
//! a date and time, writing one, and asking the time zone of the machine
//! about one are the work of the `chrono` crate. It is reached through the
//! three wrappers at the end of this file, whose contracts are taken on
//! trust; everything else here is proved.

use chrono::Datelike;
use chrono::Local;
use chrono::LocalResult;
use chrono::NaiveDate;
use chrono::NaiveDateTime;
use chrono::TimeZone;
use chrono::Timelike;
use vstd::prelude::*;
use crate::dato_format::FORMAT;
use crate::tall::nullfylt;

verus! {

/// The first of the years that chrono has dates for.
pub const MINSTE_AAR: i32 = -262143;

/// The last of the years that chrono has dates for.
pub const STOERSTE_AAR: i32 = 262142;

/// Whether the year `aar` has a 29th of February: every fourth year, but of
/// the years that end a century only every fourth. Years before year 1 are
/// counted on backwards, year 0 being the one before year 1.
pub open spec fn skuddaar(aar: int) -> bool {
    aar % 4 == 0 && (aar % 100 != 0 || aar % 400 == 0)
}

/// The number of days in month `maaned` (1 to 12) of the year `aar`.
pub open spec fn dager_i_maaned(aar: int, maaned: int) -> int {
    if maaned == 2 {
        if skuddaar(aar) {
            29
        } else {
            28
        }
    } else if maaned == 4 || maaned == 6 || maaned == 9 || maaned == 11 {
        30
    } else {
        31
    }
}

/// A day of the calendar: year, month and day of the month.
#[derive(Clone, Copy, Debug, PartialEq, Eq, Structural)]
pub struct Dato {
    pub aar: i32,
    pub maaned: u32,
    pub dag: u32,
}

/// Seven numbers that may name a date and a time of day.
///
/// A leap second is written as chrono writes it: second 59 with a thousand
/// million nanoseconds or more.
#[derive(Clone, Copy, Debug, PartialEq, Eq, Structural)]
pub struct Stempel {
    pub aar: i32,
    pub maaned: u32,
    pub dag: u32,
    pub time: u32,
    pub minutt: u32,
    pub sekund: u32,
    pub nanosekund: u32,
}

impl Stempel {
    /// Whether the numbers name a day that the calendar has, in a year from
    /// `MINSTE_AAR` to `STOERSTE_AAR`, and a time of day that the clock has.
    pub open spec fn gyldig(self) -> bool {
        &&& MINSTE_AAR <= self.aar <= STOERSTE_AAR
        &&& 1 <= self.maaned <= 12
        &&& 1 <= self.dag <= dager_i_maaned(self.aar as int, self.maaned as int)
        &&& self.time < 24
        &&& self.minutt < 60
        &&& self.sekund < 60
        &&& self.nanosekund < 2_000_000_000
        &&& (self.nanosekund >= 1_000_000_000 ==> self.sekund == 59)
    }

    /// The day that the numbers name.
    pub open spec fn dato(self) -> Dato {
        Dato { aar: self.aar, maaned: self.maaned, dag: self.dag }
    }

    /// Whether the numbers name a date and time.
    pub fn er_gyldig(&self) -> (r: bool)
        ensures
            r == self.gyldig(),
    {
        if self.aar < MINSTE_AAR || self.aar > STOERSTE_AAR {
            return false;
        }
        if self.maaned < 1 || self.maaned > 12 || self.dag < 1 {
            return false;
        }
        let skudd = self.aar % 4 == 0 && (self.aar % 100 != 0 || self.aar % 400 == 0);
        let dager: u32 = if self.maaned == 2 {
            if skudd {
                29
            } else {
                28
            }
        } else if self.maaned == 4 || self.maaned == 6 || self.maaned == 9 || self.maaned == 11 {
            30
        } else {
            31
        };
        self.dag <= dager && self.time < 24 && self.minutt < 60 && self.sekund < 60
            && self.nanosekund < 2_000_000_000 && (self.nanosekund < 1_000_000_000 || self.sekund
            == 59)
    }
}

/// A date and a time of day that the calendar and the clock have: a
/// [`Stempel`] that is `gyldig`. Its view is that `Stempel`.
#[derive(Clone, Copy, Debug, PartialEq, Eq)]
pub struct Tidspunkt {
    stempel: Stempel,
}

impl View for Tidspunkt {
    type V = Stempel;

    closed spec fn view(&self) -> Stempel {
        self.stempel
    }
}

impl Tidspunkt {
    #[verifier::type_invariant]
    spec fn velformet(self) -> bool {
        self.stempel.gyldig()
    }

    /// The moment that `stempel` names, if it names one.
    pub fn fra_stempel(stempel: Stempel) -> (r: Option<Tidspunkt>)
        ensures
            r is Some <==> stempel.gyldig(),
            r matches Some(t) ==> t@ == stempel,
    {
        if stempel.er_gyldig() {
            Some(Tidspunkt { stempel })
        } else {
            None
        }
    }

    /// The moment with these six numbers and no fraction of a second, if the
    /// calendar and the clock have it.
    pub fn ny(aar: i32, maaned: u32, dag: u32, time: u32, minutt: u32, sekund: u32) -> (r: Option<
        Tidspunkt,
    >)
        ensures
            ({
                let stempel = Stempel { aar, maaned, dag, time, minutt, sekund, nanosekund: 0 };
                &&& r is Some <==> stempel.gyldig()
                &&& r matches Some(t) ==> t@ == stempel
            }),
    {
        Tidspunkt::fra_stempel(Stempel { aar, maaned, dag, time, minutt, sekund, nanosekund: 0 })
    }

    /// The seven numbers of this moment.
    pub fn stempel(&self) -> (r: Stempel)
        ensures
            r == self@,
            r.gyldig(),
    {
        proof {
            use_type_invariant(self);
        }
        self.stempel
    }

    /// The day on which this moment falls.
    pub fn dato(&self) -> (r: Dato)
        ensures
            r == self@.dato(),
    {
        Dato { aar: self.stempel.aar, maaned: self.stempel.maaned, dag: self.stempel.dag }
    }
}

/// How the time zone of the machine places a date and time of the wall clock.
#[derive(Clone, Copy, Debug, PartialEq, Eq, Structural)]
pub enum Oppslag {
    /// The wall clock never shows this time: it was skipped, or the zone
    /// could not be asked.
    Ingen,
    /// The wall clock shows this time once.
    Entydig,
    /// The wall clock shows this time twice.
    Tvetydig,
}

/// Why a text gives no start time.
#[derive(Clone, Copy, Debug, PartialEq, Eq, Structural)]
pub enum DatoFeil {
    /// The text is no date and time in the format asked for.
    Format,
    /// The date and time is one that the wall clock of this zone never shows.
    FinnesIkke,
    /// The date and time is one that the wall clock of this zone shows twice.
    Tvetydig,
}

/// The year as `%Y` writes it: four digits or more, and a sign before them
/// where the year is negative or has more than four digits.
pub open spec fn aarstekst(aar: int) -> Seq<char> {
    if 0 <= aar <= 9999 {
        nullfylt(aar as nat, 4)
    } else if aar < 0 {
        seq!['-'] + nullfylt((-aar) as nat, 4)
    } else {
        seq!['+'] + nullfylt(aar as nat, 4)
    }
}

/// The second as `%S` writes it: 60 for a leap second.
pub open spec fn sekundtall(t: Stempel) -> nat {
    (t.sekund + t.nanosekund / 1_000_000_000) as nat
}

/// The date and time `t` written as year, month and day with `-` between
/// them, a space, and hour, minute and second with `:` between them; each
/// number but the year with two digits.
pub open spec fn stempeltekst(t: Stempel) -> Seq<char> {
    aarstekst(t.aar as int) + seq!['-'] + nullfylt(t.maaned as nat, 2) + seq!['-'] + nullfylt(
        t.dag as nat,
        2,
    ) + seq![' '] + nullfylt(t.time as nat, 2) + seq![':'] + nullfylt(t.minutt as nat, 2)
        + seq![':'] + nullfylt(sekundtall(t), 2)
}

/// The date and time that chrono reads in `s` under `format`, where it is
/// one that the calendar and the clock have.
pub open spec fn lest_stempel(s: Seq<char>, format: Seq<char>) -> Option<Stempel> {
    match naiv_tolkning(s, format) {
        Some(t) => if t.gyldig() {
            Some(t)
        } else {
            None
        },
        None => None,
    }
}

/// What becomes of the date and time `t` once the zone has answered: it
/// stands if the wall clock shows it once, and is an error otherwise.
pub open spec fn plassert(t: Stempel, oppslag: Oppslag) -> Result<Stempel, DatoFeil> {
    match oppslag {
        Oppslag::Entydig => Ok(t),
        Oppslag::Ingen => Err(DatoFeil::FinnesIkke),
        Oppslag::Tvetydig => Err(DatoFeil::Tvetydig),
    }
}

/// What becomes of the text `s` as a start time in the format `format`, if
/// the zone answers `oppslag` when asked about the date and time read.
pub open spec fn lest_tidspunkt(s: Seq<char>, format: Seq<char>, oppslag: Oppslag) -> Result<
    Stempel,
    DatoFeil,
> {
    match lest_stempel(s, format) {
        Some(t) => plassert(t, oppslag),
        None => Err(DatoFeil::Format),
    }
}

/// A start time or an error, with the start time as its seven numbers.
pub open spec fn utfall_syn(r: Result<Tidspunkt, DatoFeil>) -> Result<Stempel, DatoFeil> {
    match r {
        Ok(t) => Ok(t@),
        Err(e) => Err(e),
    }
}

/// The date and time that `s` names in the format `format`. What chrono
/// read is looked over before it is taken for a `Tidspunkt`.
pub fn les_stempel(s: &str, format: &str) -> (r: Option<Tidspunkt>)
    ensures
        r matches Some(t) ==> lest_stempel(s@, format@) == Some(t@),
        r is None ==> lest_stempel(s@, format@) is None,
{
    match tolk_naiv(s, format) {
        Some(stempel) => Tidspunkt::fra_stempel(stempel),
        None => None,
    }
}

/// Decides on the date and time `t` from what the zone answered about it.
pub fn plasser(t: Tidspunkt, oppslag: Oppslag) -> (r: Result<Tidspunkt, DatoFeil>)
    ensures
        utfall_syn(r) == plassert(t@, oppslag),
{
    match oppslag {
        Oppslag::Entydig => Ok(t),
        Oppslag::Ingen => Err(DatoFeil::FinnesIkke),
        Oppslag::Tvetydig => Err(DatoFeil::Tvetydig),
    }
}

/// Reads `s` as a start time in the format `format`: a date and time that
/// the wall clock of this machine's zone shows exactly once.
///
/// `Err(DatoFeil::Format)` comes exactly where `s` is no date and time in
/// the format. Where it is one, the zone is asked. Which of the three
/// answers it gives is not for this library to say; whatever it is, the
/// result is what `lest_tidspunkt` makes of it.
pub fn les_tidspunkt(s: &str, format: &str) -> (r: Result<Tidspunkt, DatoFeil>)
    ensures
        exists|oppslag: Oppslag| utfall_syn(r) == #[trigger] lest_tidspunkt(s@, format@, oppslag),
        utfall_syn(r) == Err::<Stempel, DatoFeil>(DatoFeil::Format) <==> lest_stempel(
            s@,
            format@,
        ) is None,
        r matches Ok(t) ==> lest_stempel(s@, format@) == Some(t@),
{
    match les_stempel(s, format) {
        Some(t) => {
            let stempel = t.stempel();
            let oppslag = lokalt_oppslag(&stempel);
            let r = plasser(t, oppslag);
            assert(utfall_syn(r) == lest_tidspunkt(s@, format@, oppslag));
            r
        },
        None => {
            assert(lest_tidspunkt(s@, format@, Oppslag::Ingen) == Err::<Stempel, DatoFeil>(
                DatoFeil::Format,
            ));
            Err(DatoFeil::Format)
        },
    }
}

/// What `chrono::NaiveDateTime::parse_from_str` makes of the text `s` under
/// the format `format`: the date and time that it reads, or `None` where it
/// reports an error.
pub uninterp spec fn naiv_tolkning(s: Seq<char>, format: Seq<char>) -> Option<Stempel>;

/// Reads `s` as a date and time in the format `format`.
///
/// Calls `chrono::NaiveDateTime::parse_from_str` and hands out the seven
/// numbers of what it read, each as chrono gives it. The result depends on
/// the two texts alone; the contract gives it its name and claims nothing
/// more about it.
#[verifier::external_body]
pub(crate) fn tolk_naiv(s: &str, format: &str) -> (r: Option<Stempel>)
    ensures
        r == naiv_tolkning(s@, format@),
{
    match NaiveDateTime::parse_from_str(s, format) {
        Ok(n) => Some(
            Stempel {
                aar: n.year(),
                maaned: n.month(),
                dag: n.day(),
                time: n.hour(),
                minutt: n.minute(),
                sekund: n.second(),
                nanosekund: n.nanosecond(),
            },
        ),
        Err(_) => None,
    }
}

/// Asks the time zone of the machine where `t` falls on its wall clock.
///
/// Calls `from_local_datetime` of `chrono::Local`. The answer depends on the
/// zone that the machine is set to, so the contract promises nothing of it.
/// `t` must be `gyldig`: those are the numbers from which
/// `NaiveDate::from_ymd_opt` and `NaiveDate::and_hms_nano_opt` build a date
/// and time.
#[verifier::external_body]
pub(crate) fn lokalt_oppslag(t: &Stempel) -> (r: Oppslag)
    requires
        t.gyldig(),
{
    let dag = NaiveDate::from_ymd_opt(t.aar, t.maaned, t.dag).unwrap();
    let naiv = dag.and_hms_nano_opt(t.time, t.minutt, t.sekund, t.nanosekund).unwrap();
    match Local.from_local_datetime(&naiv) {
        LocalResult::None => Oppslag::Ingen,
        LocalResult::Single(_) => Oppslag::Entydig,
        LocalResult::Ambiguous(_, _) => Oppslag::Tvetydig,
    }
}

/// Writes `t` in the format `format`, which must be `FORMAT`.
///
/// Calls `chrono::NaiveDateTime::format` and takes the text of what it
/// returns. The contract states what chrono documents for `%Y`, `%m`, `%d`,
/// `%H`, `%M` and `%S`: the year with four digits or more and a sign where
/// it needs one, each of the other numbers with two digits, a leap second
/// as second 60, and what stands between them in the format unchanged.
/// `t` must be `gyldig`: those are the numbers from which
/// `NaiveDate::from_ymd_opt` and `NaiveDate::and_hms_nano_opt` build a date
/// and time.
#[verifier::external_body]
pub(crate) fn formater(t: &Stempel, format: &str) -> (r: String)
    requires
        t.gyldig(),
        format@ == FORMAT@,
    ensures
        r@ == stempeltekst(*t),
{
    let dag = NaiveDate::from_ymd_opt(t.aar, t.maaned, t.dag).unwrap();
    let naiv = dag.and_hms_nano_opt(t.time, t.minutt, t.sekund, t.nanosekund).unwrap();
    naiv.format(format).to_string()
}

} // verus!
