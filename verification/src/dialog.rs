//! The dialogue that makes a new appointment.
//!
//! The dialogue asks for four fields in turn: title, place, duration and
//! start time. It takes one line at a time, as the terminal handed it over,
//! line feed included. Title and place are taken as typed. A duration that
//! is no integer and a start time that is no date and time are asked for
//! again, as often as it takes.

use vstd::prelude::*;
use crate::avtale::Avtale;
use crate::avtale::AvtaleSyn;
use crate::tall::som_i32;
use crate::tall::tolk_i32;
use crate::tekst::fjern_linjeskift;
use crate::tekst::trim;
use crate::tekst::trimmet;
use crate::tekst::uten_linjeskift;
use crate::tid::les_tidspunkt;
use crate::tid::lest_stempel;
use crate::tid::lest_tidspunkt;
use crate::tid::plassert;
use crate::tid::utfall_syn;
use crate::tid::DatoFeil;
use crate::tid::Oppslag;
use crate::tid::Stempel;
use crate::tid::Tidspunkt;

verus! {

/// The format in which the dialogue takes a start time: `YYYY-MM-DD HH:MM`.
pub const MINUTTFORMAT: &'static str = "%Y-%m-%d %H:%M";

/// The question for the title.
pub const SPOER_TITTEL: &'static str = "Skriv inn tittelen på avtalen: ";

/// The question for the place.
pub const SPOER_STED: &'static str = "Skriv inn stedet til avtalen: ";

/// The question for the duration.
pub const SPOER_VARIGHET: &'static str = "Skriv inn varigheten til avtalen: ";

/// The question for the start time.
pub const SPOER_START: &'static str =
    "Skriv inn startidspunktet for avtalen (YYYY-MM-DD HH:MM): ";

/// What the dialogue says when it did not accept a line.
pub const PROEV_IGJEN: &'static str = "Prøv igjen\n";

/// The four fields of an appointment, in the order the dialogue asks them.
#[derive(Clone, Copy, Debug, PartialEq, Eq, Structural)]
pub enum Felt {
    Tittel,
    Sted,
    Varighet,
    Start,
}

/// An appointment in the making: the fields that have been given, and by
/// its variant the field that is asked for next.
#[derive(Debug, PartialEq)]
pub enum Utkast {
    Tittel,
    Sted { tittel: String },
    Varighet { tittel: String, sted: String },
    Start { tittel: String, sted: String, varighet: i32 },
}

/// An appointment in the making, as plain values.
pub enum UtkastSyn {
    Tittel,
    Sted { tittel: Seq<char> },
    Varighet { tittel: Seq<char>, sted: Seq<char> },
    Start { tittel: Seq<char>, sted: Seq<char>, varighet: i32 },
}

impl UtkastSyn {
    /// The field that is asked for next.
    pub open spec fn felt(self) -> Felt {
        match self {
            UtkastSyn::Tittel => Felt::Tittel,
            UtkastSyn::Sted { .. } => Felt::Sted,
            UtkastSyn::Varighet { .. } => Felt::Varighet,
            UtkastSyn::Start { .. } => Felt::Start,
        }
    }
}

impl View for Utkast {
    type V = UtkastSyn;

    open spec fn view(&self) -> UtkastSyn {
        match *self {
            Utkast::Tittel => UtkastSyn::Tittel,
            Utkast::Sted { tittel } => UtkastSyn::Sted { tittel: tittel@ },
            Utkast::Varighet { tittel, sted } => UtkastSyn::Varighet {
                tittel: tittel@,
                sted: sted@,
            },
            Utkast::Start { tittel, sted, varighet } => UtkastSyn::Start {
                tittel: tittel@,
                sted: sted@,
                varighet,
            },
        }
    }
}

/// What a line does to the dialogue.
#[derive(Debug, PartialEq)]
pub enum Framdrift {
    /// The dialogue goes on and asks for the field of `utkast`; it asks
    /// again, `proev_igjen`, where the line was not accepted.
    Videre { utkast: Utkast, proev_igjen: bool },
    /// The last field was given: the appointment is made.
    Ferdig(Avtale),
    /// The start time that was given is one that the wall clock of this
    /// zone does not show exactly once. The dialogue is over and no
    /// appointment is made.
    Avbrutt(DatoFeil),
}

/// What a line does to the dialogue, as plain values.
pub enum FramdriftSyn {
    Videre { utkast: UtkastSyn, proev_igjen: bool },
    Ferdig(AvtaleSyn),
    Avbrutt(DatoFeil),
}

impl View for Framdrift {
    type V = FramdriftSyn;

    open spec fn view(&self) -> FramdriftSyn {
        match *self {
            Framdrift::Videre { utkast, proev_igjen } => FramdriftSyn::Videre {
                utkast: utkast@,
                proev_igjen,
            },
            Framdrift::Ferdig(avtale) => FramdriftSyn::Ferdig(avtale@),
            Framdrift::Avbrutt(feil) => FramdriftSyn::Avbrutt(feil),
        }
    }
}

/// What the line `linje` does to the dialogue `u`, where `start` is what
/// came of reading the line as a start time.
///
/// Title and place are the line without its line feed. The duration is the
/// integer that the line denotes once the white space around it is gone; a
/// line that denotes none changes nothing and is asked for again. The start
/// time ends the dialogue if it could be read, is asked for again if the
/// line is no date and time, and breaks the dialogue off if the wall clock
/// does not show it exactly once.
pub open spec fn etter_linje(
    u: UtkastSyn,
    linje: Seq<char>,
    start: Result<Stempel, DatoFeil>,
) -> FramdriftSyn {
    match u {
        UtkastSyn::Tittel => FramdriftSyn::Videre {
            utkast: UtkastSyn::Sted { tittel: uten_linjeskift(linje) },
            proev_igjen: false,
        },
        UtkastSyn::Sted { tittel } => FramdriftSyn::Videre {
            utkast: UtkastSyn::Varighet { tittel, sted: uten_linjeskift(linje) },
            proev_igjen: false,
        },
        UtkastSyn::Varighet { tittel, sted } => match som_i32(trimmet(linje)) {
            Some(varighet) => FramdriftSyn::Videre {
                utkast: UtkastSyn::Start { tittel, sted, varighet },
                proev_igjen: false,
            },
            None => FramdriftSyn::Videre { utkast: u, proev_igjen: true },
        },
        UtkastSyn::Start { tittel, sted, varighet } => match start {
            Ok(starttidspunkt) => FramdriftSyn::Ferdig(
                AvtaleSyn { tittel, sted, varighet, starttidspunkt },
            ),
            Err(DatoFeil::Format) => FramdriftSyn::Videre { utkast: u, proev_igjen: true },
            Err(feil) => FramdriftSyn::Avbrutt(feil),
        },
    }
}

/// What the line `linje` makes of the start time, if the zone answers
/// `oppslag` when asked: the line without its line feed, read in
/// `MINUTTFORMAT`.
pub open spec fn start_av(linje: Seq<char>, oppslag: Oppslag) -> Result<Stempel, DatoFeil> {
    lest_tidspunkt(uten_linjeskift(linje), MINUTTFORMAT@, oppslag)
}

/// Takes the line `linje` into the dialogue `utkast`, where `start` is what
/// came of reading the line as a start time. `start` is looked at only
/// when the start time is the field asked for.
pub fn lag_avtale_med(utkast: Utkast, linje: &str, start: Result<Tidspunkt, DatoFeil>) -> (r:
    Framdrift)
    ensures
        r@ == etter_linje(utkast@, linje@, utfall_syn(start)),
{
    match utkast {
        Utkast::Tittel => {
            let tittel = String::from_str(fjern_linjeskift(linje));
            Framdrift::Videre { utkast: Utkast::Sted { tittel }, proev_igjen: false }
        },
        Utkast::Sted { tittel } => {
            let sted = String::from_str(fjern_linjeskift(linje));
            Framdrift::Videre { utkast: Utkast::Varighet { tittel, sted }, proev_igjen: false }
        },
        Utkast::Varighet { tittel, sted } => match tolk_i32(trim(linje)) {
            Some(varighet) => Framdrift::Videre {
                utkast: Utkast::Start { tittel, sted, varighet },
                proev_igjen: false,
            },
            None => Framdrift::Videre {
                utkast: Utkast::Varighet { tittel, sted },
                proev_igjen: true,
            },
        },
        Utkast::Start { tittel, sted, varighet } => match start {
            Ok(starttidspunkt) => Framdrift::Ferdig(
                Avtale { tittel, sted, varighet, starttidspunkt },
            ),
            Err(DatoFeil::Format) => Framdrift::Videre {
                utkast: Utkast::Start { tittel, sted, varighet },
                proev_igjen: true,
            },
            Err(feil) => Framdrift::Avbrutt(feil),
        },
    }
}

/// Takes the line `linje` into the dialogue `utkast`.
///
/// Where the start time is the field asked for, the line is read as one and
/// the zone of the machine is asked about it. Which answer the zone gives is
/// not for this library to say; whatever it is, the result is what
/// `etter_linje` makes of it. For the other three fields nothing is asked
/// and the result is fixed by the line.
pub fn lag_avtale(utkast: Utkast, linje: &str) -> (r: Framdrift)
    ensures
        exists|oppslag: Oppslag|
            r@ == etter_linje(utkast@, linje@, #[trigger] start_av(linje@, oppslag)),
        !(utkast@ is Start) ==> r@ == etter_linje(
            utkast@,
            linje@,
            Err::<Stempel, DatoFeil>(DatoFeil::Format),
        ),
        utkast@ is Start ==> (lest_stempel(uten_linjeskift(linje@), MINUTTFORMAT@) is None <==> r@
            == (FramdriftSyn::Videre { utkast: utkast@, proev_igjen: true })),
        r@ matches FramdriftSyn::Ferdig(avtale) ==> lest_stempel(
            uten_linjeskift(linje@),
            MINUTTFORMAT@,
        ) == Some(avtale.starttidspunkt),
{
    let start = match &utkast {
        Utkast::Start { .. } => les_tidspunkt(fjern_linjeskift(linje), MINUTTFORMAT),
        _ => Err(DatoFeil::Format),
    };
    let ghost vitne = if utkast@ is Start {
        choose|oppslag: Oppslag|
            utfall_syn(start) == #[trigger] lest_tidspunkt(
                uten_linjeskift(linje@),
                MINUTTFORMAT@,
                oppslag,
            )
    } else {
        Oppslag::Ingen
    };
    let r = lag_avtale_med(utkast, linje, start);
    assert(r@ == etter_linje(utkast@, linje@, start_av(linje@, vitne)));
    r
}

/// What the dialogue says when it asks for the field `felt`.
pub open spec fn ledetekst(felt: Felt) -> Seq<char> {
    match felt {
        Felt::Tittel => SPOER_TITTEL@,
        Felt::Sted => SPOER_STED@,
        Felt::Varighet => SPOER_VARIGHET@,
        Felt::Start => SPOER_START@,
    }
}

/// What the dialogue says after a line: where it goes on, that the line
/// was not accepted, if so, and the question for the next field; nothing
/// where it is over.
pub open spec fn dialogtekst(f: FramdriftSyn) -> Seq<char> {
    match f {
        FramdriftSyn::Videre { utkast, proev_igjen } => if proev_igjen {
            PROEV_IGJEN@ + ledetekst(utkast.felt())
        } else {
            ledetekst(utkast.felt())
        },
        _ => Seq::empty(),
    }
}

impl Utkast {
    /// The field that is asked for next.
    pub fn felt(&self) -> (r: Felt)
        ensures
            r == self@.felt(),
    {
        match self {
            Utkast::Tittel => Felt::Tittel,
            Utkast::Sted { .. } => Felt::Sted,
            Utkast::Varighet { .. } => Felt::Varighet,
            Utkast::Start { .. } => Felt::Start,
        }
    }
}

/// The question for the field `felt`.
pub fn spoersmaal(felt: Felt) -> (r: &'static str)
    ensures
        r@ == ledetekst(felt),
{
    match felt {
        Felt::Tittel => SPOER_TITTEL,
        Felt::Sted => SPOER_STED,
        Felt::Varighet => SPOER_VARIGHET,
        Felt::Start => SPOER_START,
    }
}

impl Framdrift {
    /// What the dialogue says after the line that led here.
    pub fn utskrift(&self) -> (r: String)
        ensures
            r@ == dialogtekst(self@),
    {
        match self {
            Framdrift::Videre { utkast, proev_igjen } => {
                if *proev_igjen {
                    let mut ut = String::from_str(PROEV_IGJEN);
                    ut.append(spoersmaal(utkast.felt()));
                    ut
                } else {
                    String::from_str(spoersmaal(utkast.felt()))
                }
            },
            _ => String::new(),
        }
    }
}

/// What the lines `linjer`, one after the other, do to the dialogue `u`,
/// where `oppslag[i]` is what the zone answers when asked about line `i`.
/// Lines that come after the dialogue is over change nothing.
pub open spec fn etter_linjer(
    u: UtkastSyn,
    linjer: Seq<Seq<char>>,
    oppslag: Seq<Oppslag>,
) -> FramdriftSyn
    decreases linjer.len(),
{
    if linjer.len() == 0 {
        FramdriftSyn::Videre { utkast: u, proev_igjen: false }
    } else {
        match etter_linjer(u, linjer.drop_last(), oppslag) {
            FramdriftSyn::Videre { utkast, .. } => etter_linje(
                utkast,
                linjer.last(),
                start_av(linjer.last(), oppslag[linjer.len() - 1]),
            ),
            over => over,
        }
    }
}

/// The dialogue leaves the duration only by a line that denotes an
/// integer, and then with that integer as the duration. Any other line
/// leaves the dialogue as it is and is answered by asking again.
pub proof fn lov_varighet(
    tittel: Seq<char>,
    sted: Seq<char>,
    linje: Seq<char>,
    start: Result<Stempel, DatoFeil>,
)
    ensures
        ({
            let foer = UtkastSyn::Varighet { tittel, sted };
            etter_linje(foer, linje, start) == match som_i32(trimmet(linje)) {
                Some(varighet) => FramdriftSyn::Videre {
                    utkast: UtkastSyn::Start { tittel, sted, varighet },
                    proev_igjen: false,
                },
                None => FramdriftSyn::Videre { utkast: foer, proev_igjen: true },
            }
        }),
{
}

/// However many lines are given for the duration, as long as none of them
/// denotes an integer the dialogue still asks for the duration, with title
/// and place unchanged.
pub proof fn lov_varighet_spoerres_igjen(
    tittel: Seq<char>,
    sted: Seq<char>,
    linjer: Seq<Seq<char>>,
    oppslag: Seq<Oppslag>,
)
    requires
        forall|i: int| 0 <= i < linjer.len() ==> som_i32(trimmet(#[trigger] linjer[i])) is None,
    ensures
        ({
            let foer = UtkastSyn::Varighet { tittel, sted };
            etter_linjer(foer, linjer, oppslag) matches FramdriftSyn::Videre { utkast, .. }
                && utkast == foer
        }),
    decreases linjer.len(),
{
    if linjer.len() > 0 {
        lov_varighet_spoerres_igjen(tittel, sted, linjer.drop_last(), oppslag);
    }
}

/// The dialogue leaves the start time only by a line that, without its line
/// feed, is a date and time in `MINUTTFORMAT`. Such a line ends the dialogue:
/// with the appointment, if the wall clock shows that time once, and broken
/// off otherwise. Any other line leaves the dialogue as it is and is
/// answered by asking again, whatever the zone would say.
pub proof fn lov_start(
    tittel: Seq<char>,
    sted: Seq<char>,
    varighet: i32,
    linje: Seq<char>,
    oppslag: Oppslag,
)
    ensures
        ({
            let foer = UtkastSyn::Start { tittel, sted, varighet };
            etter_linje(foer, linje, start_av(linje, oppslag)) == match lest_stempel(
                uten_linjeskift(linje),
                MINUTTFORMAT@,
            ) {
                Some(starttidspunkt) => match plassert(starttidspunkt, oppslag) {
                    Ok(_) => FramdriftSyn::Ferdig(
                        AvtaleSyn { tittel, sted, varighet, starttidspunkt },
                    ),
                    Err(feil) => FramdriftSyn::Avbrutt(feil),
                },
                None => FramdriftSyn::Videre { utkast: foer, proev_igjen: true },
            }
        }),
{
}

/// However many lines are given for the start time, as long as none of them
/// is a date and time in `MINUTTFORMAT` the dialogue still asks for the start
/// time, with title, place and duration unchanged.
pub proof fn lov_start_spoerres_igjen(
    tittel: Seq<char>,
    sted: Seq<char>,
    varighet: i32,
    linjer: Seq<Seq<char>>,
    oppslag: Seq<Oppslag>,
)
    requires
        forall|i: int|
            0 <= i < linjer.len() ==> lest_stempel(
                uten_linjeskift(#[trigger] linjer[i]),
                MINUTTFORMAT@,
            ) is None,
    ensures
        ({
            let foer = UtkastSyn::Start { tittel, sted, varighet };
            etter_linjer(foer, linjer, oppslag) matches FramdriftSyn::Videre { utkast, .. }
                && utkast == foer
        }),
    decreases linjer.len(),
{
    if linjer.len() > 0 {
        lov_start_spoerres_igjen(tittel, sted, varighet, linjer.drop_last(), oppslag);
    }
}

} // verus!
