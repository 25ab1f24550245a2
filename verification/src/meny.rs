//! The menu of the appointment book, as a state machine.
//!
//! The machine holds the list of appointments and the phase that the menu
//! is in. The caller reads and writes: it carries out the action that the
//! machine hands out and comes back with the event that the action ended
//! in. A step prints nothing and reads nothing.

use vstd::prelude::*;
use crate::avtale::listetekst;
use crate::avtale::print_avtaler;
use crate::avtale::syn_av;
use crate::avtale::Avtale;
use crate::avtale::AvtaleSyn;
use crate::dialog::dialogtekst;
use crate::dialog::etter_linje;
use crate::dialog::lag_avtale_med;
use crate::dialog::ledetekst;
use crate::dialog::spoersmaal;
use crate::dialog::start_av;
use crate::dialog::Felt;
use crate::dialog::Framdrift;
use crate::dialog::FramdriftSyn;
use crate::dialog::MINUTTFORMAT;
use crate::dialog::PROEV_IGJEN;
use crate::dialog::Utkast;
use crate::dialog::UtkastSyn;
use crate::tall::som_u8;
use crate::tall::tolk_u8;
use crate::tekst::fjern_linjeskift;
use crate::tekst::trim;
use crate::tekst::trimmet;
use crate::tekst::uten_linjeskift;
use crate::tid::les_tidspunkt;
use crate::tid::lest_tidspunkt;
use crate::tid::utfall_syn;
use crate::tid::DatoFeil;
use crate::tid::Oppslag;
use crate::tid::Stempel;
use crate::tid::Tidspunkt;

verus! {

/// What the menu waits for.
#[derive(Debug, PartialEq)]
pub enum Fase {
    /// A line with the number of a command.
    VenterKommando,
    /// A line for the appointment that is being made.
    LagerAvtale(Utkast),
    /// The list to have been written to the file.
    Lagrer,
    /// The list that was read from the file.
    Leser,
    /// A key, before the menu is shown again.
    VenterTast,
    /// Nothing: the menu has been left.
    Avsluttet,
}

/// What the menu waits for, as plain values.
pub enum FaseSyn {
    VenterKommando,
    LagerAvtale(UtkastSyn),
    Lagrer,
    Leser,
    VenterTast,
    Avsluttet,
}

impl View for Fase {
    type V = FaseSyn;

    open spec fn view(&self) -> FaseSyn {
        match *self {
            Fase::VenterKommando => FaseSyn::VenterKommando,
            Fase::LagerAvtale(utkast) => FaseSyn::LagerAvtale(utkast@),
            Fase::Lagrer => FaseSyn::Lagrer,
            Fase::Leser => FaseSyn::Leser,
            Fase::VenterTast => FaseSyn::VenterTast,
            Fase::Avsluttet => FaseSyn::Avsluttet,
        }
    }
}

/// The appointment book while the menu runs: the list, in the order in
/// which the appointments came, and the phase of the menu.
#[derive(Debug, PartialEq)]
pub struct Meny {
    pub avtaler: Vec<Avtale>,
    pub fase: Fase,
}

/// The appointment book while the menu runs, as plain values.
pub struct MenySyn {
    pub avtaler: Seq<AvtaleSyn>,
    pub fase: FaseSyn,
}

impl View for Meny {
    type V = MenySyn;

    open spec fn view(&self) -> MenySyn {
        MenySyn { avtaler: syn_av(self.avtaler@), fase: self.fase@ }
    }
}

/// What the caller comes back with.
#[derive(Debug, PartialEq)]
pub enum Hendelse {
    /// A line was read from the terminal; here it is, line feed included.
    Linje(String),
    /// The list was written to the file.
    Lagret,
    /// The file was read; here are its appointments.
    Lest(Vec<Avtale>),
    /// A key was pressed: one byte was read from the terminal.
    Tast,
}

/// What the caller comes back with, as plain values.
pub enum HendelseSyn {
    Linje(Seq<char>),
    Lagret,
    Lest(Seq<AvtaleSyn>),
    Tast,
}

impl View for Hendelse {
    type V = HendelseSyn;

    open spec fn view(&self) -> HendelseSyn {
        match *self {
            Hendelse::Linje(linje) => HendelseSyn::Linje(linje@),
            Hendelse::Lagret => HendelseSyn::Lagret,
            Hendelse::Lest(liste) => HendelseSyn::Lest(syn_av(liste@)),
            Hendelse::Tast => HendelseSyn::Tast,
        }
    }
}

/// What the caller is to do once it has printed the text of an action.
#[derive(Clone, Copy, Debug, PartialEq, Eq, Structural)]
pub enum Neste {
    /// Read a line from the terminal and come back with `Hendelse::Linje`.
    LesLinje,
    /// Write the list to the file and come back with `Hendelse::Lagret`.
    LagreFil,
    /// Read the file and come back with `Hendelse::Lest`.
    LesFil,
    /// Read one byte from the terminal and come back with `Hendelse::Tast`.
    VentPaaTast,
    /// Leave: the user asked for it.
    Avslutt,
    /// Give up: a start time was typed that the wall clock of this zone
    /// does not show exactly once.
    Avbryt(DatoFeil),
}

/// An action: a text to print, and what to do then.
#[derive(Debug, PartialEq)]
pub struct Handling {
    pub utskrift: String,
    pub neste: Neste,
}

/// An action, as plain values.
pub struct HandlingSyn {
    pub utskrift: Seq<char>,
    pub neste: Neste,
}

impl View for Handling {
    type V = HandlingSyn;

    open spec fn view(&self) -> HandlingSyn {
        HandlingSyn { utskrift: self.utskrift@, neste: self.neste }
    }
}

/// The menu as it is shown, with the sign that asks for a command.
pub const MENYTEKST: &'static str = "Ny avtale [1]\n\
Lagre avtaler [2]\n\
Se avtaler [3]\n\
Les avtaler fra avtale.json fil [4]\n\
Avslutt programmet [5]\n\
: ";

/// What the menu says before it waits for a key.
pub const PAUSETEKST: &'static str = "Trykk enter for neste kommando ...";

/// What clears the screen and puts the cursor in its upper left corner.
pub const TOEMMETEKST: &'static str = "\x1b[2J\x1b[1;1H";

/// What the menu says once an appointment has been made.
pub const LA_TIL_TEKST: &'static str = "La til ny avtale\n";

/// What the menu says once the list has been written to the file.
pub const LAGRET_TEKST: &'static str = "Lagret avtaler\n";

/// What the menu says once the file has been read.
pub const LESTE_TEKST: &'static str = "Leste avtaler\n";

/// What the caller is to do for a menu in the phase `fase`, where nothing
/// new has happened.
pub open spec fn ventet(fase: FaseSyn) -> Neste {
    match fase {
        FaseSyn::VenterKommando => Neste::LesLinje,
        FaseSyn::LagerAvtale(_) => Neste::LesLinje,
        FaseSyn::Lagrer => Neste::LagreFil,
        FaseSyn::Leser => Neste::LesFil,
        FaseSyn::VenterTast => Neste::VentPaaTast,
        FaseSyn::Avsluttet => Neste::Avslutt,
    }
}

/// The pause that ends a command: `foer` is said, then the menu waits for a
/// key.
pub open spec fn pause(avtaler: Seq<AvtaleSyn>, foer: Seq<char>) -> (MenySyn, HandlingSyn) {
    (
        MenySyn { avtaler, fase: FaseSyn::VenterTast },
        HandlingSyn { utskrift: foer + PAUSETEKST@, neste: Neste::VentPaaTast },
    )
}

/// What the line `linje` does to a menu that waits for a command and holds
/// the list `avtaler`.
///
/// The line is a command if, without the white space around it, it denotes a
/// number from 0 to 255. A line that is none is answered by showing the menu
/// again. 1 starts the dialogue for a new appointment, 2 has the list
/// written, 3 shows the list, 4 has the file read, 5 leaves the menu at
/// once. Any other number does nothing. But for 5, every command ends in
/// the pause.
pub open spec fn etter_kommando(avtaler: Seq<AvtaleSyn>, linje: Seq<char>) -> (
    MenySyn,
    HandlingSyn,
) {
    match som_u8(trimmet(linje)) {
        None => (
            MenySyn { avtaler, fase: FaseSyn::VenterKommando },
            HandlingSyn { utskrift: PROEV_IGJEN@ + MENYTEKST@, neste: Neste::LesLinje },
        ),
        Some(svar) => if svar == 1 {
            (
                MenySyn { avtaler, fase: FaseSyn::LagerAvtale(UtkastSyn::Tittel) },
                HandlingSyn { utskrift: ledetekst(Felt::Tittel), neste: Neste::LesLinje },
            )
        } else if svar == 2 {
            (
                MenySyn { avtaler, fase: FaseSyn::Lagrer },
                HandlingSyn { utskrift: Seq::empty(), neste: Neste::LagreFil },
            )
        } else if svar == 3 {
            pause(avtaler, listetekst(avtaler))
        } else if svar == 4 {
            (
                MenySyn { avtaler, fase: FaseSyn::Leser },
                HandlingSyn { utskrift: Seq::empty(), neste: Neste::LesFil },
            )
        } else if svar == 5 {
            (
                MenySyn { avtaler, fase: FaseSyn::Avsluttet },
                HandlingSyn { utskrift: Seq::empty(), neste: Neste::Avslutt },
            )
        } else {
            pause(avtaler, Seq::empty())
        },
    }
}

/// What the line `linje` does to a menu that is making the appointment `u`
/// and holds the list `avtaler`, where `start` is what came of reading the
/// line as a start time.
///
/// While the dialogue goes on, the menu says what the dialogue says. The
/// finished appointment goes to the end of the list. A dialogue that is
/// broken off ends the menu and leaves the list as it was.
pub open spec fn etter_svar(
    avtaler: Seq<AvtaleSyn>,
    u: UtkastSyn,
    linje: Seq<char>,
    start: Result<Stempel, DatoFeil>,
) -> (MenySyn, HandlingSyn) {
    let framdrift = etter_linje(u, linje, start);
    match framdrift {
        FramdriftSyn::Videre { utkast, .. } => (
            MenySyn { avtaler, fase: FaseSyn::LagerAvtale(utkast) },
            HandlingSyn { utskrift: dialogtekst(framdrift), neste: Neste::LesLinje },
        ),
        FramdriftSyn::Ferdig(avtale) => pause(avtaler.push(avtale), LA_TIL_TEKST@),
        FramdriftSyn::Avbrutt(feil) => (
            MenySyn { avtaler, fase: FaseSyn::Avsluttet },
            HandlingSyn { utskrift: Seq::empty(), neste: Neste::Avbryt(feil) },
        ),
    }
}

/// What the event `h` does to the menu `m`, and the action that follows,
/// where `start` is what came of reading the line of `h`, if it is one,
/// as a start time.
///
/// An event that the phase of the menu does not wait for changes nothing,
/// and the action that follows asks again for what the phase waits for.
pub open spec fn etter_hendelse(m: MenySyn, h: HendelseSyn, start: Result<Stempel, DatoFeil>) -> (
    MenySyn,
    HandlingSyn,
) {
    match (m.fase, h) {
        (FaseSyn::VenterKommando, HendelseSyn::Linje(linje)) => etter_kommando(m.avtaler, linje),
        (FaseSyn::LagerAvtale(u), HendelseSyn::Linje(linje)) => etter_svar(
            m.avtaler,
            u,
            linje,
            start,
        ),
        (FaseSyn::Lagrer, HendelseSyn::Lagret) => pause(m.avtaler, LAGRET_TEKST@),
        (FaseSyn::Leser, HendelseSyn::Lest(liste)) => pause(m.avtaler + liste, LESTE_TEKST@),
        (FaseSyn::VenterTast, HendelseSyn::Tast) => (
            MenySyn { avtaler: m.avtaler, fase: FaseSyn::VenterKommando },
            HandlingSyn { utskrift: TOEMMETEKST@ + MENYTEKST@, neste: Neste::LesLinje },
        ),
        _ => (m, HandlingSyn { utskrift: Seq::empty(), neste: ventet(m.fase) }),
    }
}

/// The line of `h` read as a start time, if the zone answers `oppslag` when
/// asked; for an event without a line, the error of a text that is no date.
pub open spec fn start_i(h: HendelseSyn, oppslag: Oppslag) -> Result<Stempel, DatoFeil> {
    match h {
        HendelseSyn::Linje(linje) => start_av(linje, oppslag),
        _ => Err(DatoFeil::Format),
    }
}

/// The pause that ends a command, for a menu that holds `avtaler` and has
/// `foer` to say first.
fn pause_etter(avtaler: Vec<Avtale>, foer: String) -> (r: (Meny, Handling))
    ensures
        (r.0@, r.1@) == pause(syn_av(avtaler@), foer@),
{
    let mut utskrift = foer;
    utskrift.append(PAUSETEKST);
    (Meny { avtaler, fase: Fase::VenterTast }, Handling { utskrift, neste: Neste::VentPaaTast })
}

/// Takes the line `linje` as a command.
fn kommando(avtaler: Vec<Avtale>, linje: &str) -> (r: (Meny, Handling))
    ensures
        (r.0@, r.1@) == etter_kommando(syn_av(avtaler@), linje@),
{
    match tolk_u8(trim(linje)) {
        None => {
            let mut utskrift = String::from_str(PROEV_IGJEN);
            utskrift.append(MENYTEKST);
            (
                Meny { avtaler, fase: Fase::VenterKommando },
                Handling { utskrift, neste: Neste::LesLinje },
            )
        },
        Some(svar) => {
            if svar == 1 {
                (
                    Meny { avtaler, fase: Fase::LagerAvtale(Utkast::Tittel) },
                    Handling {
                        utskrift: String::from_str(spoersmaal(Felt::Tittel)),
                        neste: Neste::LesLinje,
                    },
                )
            } else if svar == 2 {
                (
                    Meny { avtaler, fase: Fase::Lagrer },
                    Handling { utskrift: String::new(), neste: Neste::LagreFil },
                )
            } else if svar == 3 {
                let liste = print_avtaler(&avtaler);
                pause_etter(avtaler, liste)
            } else if svar == 4 {
                (
                    Meny { avtaler, fase: Fase::Leser },
                    Handling { utskrift: String::new(), neste: Neste::LesFil },
                )
            } else if svar == 5 {
                (
                    Meny { avtaler, fase: Fase::Avsluttet },
                    Handling { utskrift: String::new(), neste: Neste::Avslutt },
                )
            } else {
                pause_etter(avtaler, String::new())
            }
        },
    }
}

/// Takes the line `linje` as the answer to what the dialogue `utkast` asked.
fn svar(
    avtaler: Vec<Avtale>,
    utkast: Utkast,
    linje: &str,
    start: Result<Tidspunkt, DatoFeil>,
) -> (r: (Meny, Handling))
    ensures
        (r.0@, r.1@) == etter_svar(syn_av(avtaler@), utkast@, linje@, utfall_syn(start)),
{
    let framdrift = lag_avtale_med(utkast, linje, start);
    let utskrift = framdrift.utskrift();
    match framdrift {
        Framdrift::Videre { utkast, .. } => (
            Meny { avtaler, fase: Fase::LagerAvtale(utkast) },
            Handling { utskrift, neste: Neste::LesLinje },
        ),
        Framdrift::Ferdig(avtale) => {
            let mut avtaler = avtaler;
            let ghost foer = avtaler@;
            avtaler.push(avtale);
            assert(syn_av(avtaler@) =~= syn_av(foer).push(avtale@));
            pause_etter(avtaler, String::from_str(LA_TIL_TEKST))
        },
        Framdrift::Avbrutt(feil) => (
            Meny { avtaler, fase: Fase::Avsluttet },
            Handling { utskrift: String::new(), neste: Neste::Avbryt(feil) },
        ),
    }
}

impl Fase {
    /// What the caller is to do for a menu in this phase, where nothing new
    /// has happened.
    pub fn ventet(&self) -> (r: Neste)
        ensures
            r == ventet(self@),
    {
        match self {
            Fase::VenterKommando => Neste::LesLinje,
            Fase::LagerAvtale(_) => Neste::LesLinje,
            Fase::Lagrer => Neste::LagreFil,
            Fase::Leser => Neste::LesFil,
            Fase::VenterTast => Neste::VentPaaTast,
            Fase::Avsluttet => Neste::Avslutt,
        }
    }
}

impl Meny {
    /// The menu at its start: an empty list, and a command is waited for.
    pub fn ny() -> (r: Meny)
        ensures
            r@ == (MenySyn { avtaler: Seq::empty(), fase: FaseSyn::VenterKommando }),
    {
        let r = Meny { avtaler: Vec::new(), fase: Fase::VenterKommando };
        assert(syn_av(r.avtaler@) =~= Seq::<AvtaleSyn>::empty());
        r
    }

    /// The first action of all: show the menu and read a command.
    pub fn aapning() -> (r: Handling)
        ensures
            r@ == (HandlingSyn { utskrift: MENYTEKST@, neste: Neste::LesLinje }),
    {
        Handling { utskrift: String::from_str(MENYTEKST), neste: Neste::LesLinje }
    }
}

/// One step of the menu: takes the event `hendelse` into the menu `bok`,
/// where `start` is what came of reading the line of the event as a start
/// time, and hands out the menu as it is then and the action that follows.
/// `start` is looked at only when the start time of a new appointment is
/// what the menu waits for.
pub fn meny_med(bok: Meny, hendelse: Hendelse, start: Result<Tidspunkt, DatoFeil>) -> (r: (
    Meny,
    Handling,
))
    ensures
        (r.0@, r.1@) == etter_hendelse(bok@, hendelse@, utfall_syn(start)),
{
    let Meny { avtaler, fase } = bok;
    match fase {
        Fase::VenterKommando => match hendelse {
            Hendelse::Linje(linje) => kommando(avtaler, linje.as_str()),
            _ => (
                Meny { avtaler, fase: Fase::VenterKommando },
                Handling { utskrift: String::new(), neste: Neste::LesLinje },
            ),
        },
        Fase::LagerAvtale(utkast) => match hendelse {
            Hendelse::Linje(linje) => svar(avtaler, utkast, linje.as_str(), start),
            _ => (
                Meny { avtaler, fase: Fase::LagerAvtale(utkast) },
                Handling { utskrift: String::new(), neste: Neste::LesLinje },
            ),
        },
        Fase::Lagrer => match hendelse {
            Hendelse::Lagret => pause_etter(avtaler, String::from_str(LAGRET_TEKST)),
            _ => (
                Meny { avtaler, fase: Fase::Lagrer },
                Handling { utskrift: String::new(), neste: Neste::LagreFil },
            ),
        },
        Fase::Leser => match hendelse {
            Hendelse::Lest(liste) => {
                let mut avtaler = avtaler;
                let mut liste = liste;
                let ghost foer = avtaler@;
                let ghost nye = liste@;
                avtaler.append(&mut liste);
                assert(syn_av(avtaler@) =~= syn_av(foer) + syn_av(nye));
                pause_etter(avtaler, String::from_str(LESTE_TEKST))
            },
            _ => (
                Meny { avtaler, fase: Fase::Leser },
                Handling { utskrift: String::new(), neste: Neste::LesFil },
            ),
        },
        Fase::VenterTast => match hendelse {
            Hendelse::Tast => {
                let mut utskrift = String::from_str(TOEMMETEKST);
                utskrift.append(MENYTEKST);
                (
                    Meny { avtaler, fase: Fase::VenterKommando },
                    Handling { utskrift, neste: Neste::LesLinje },
                )
            },
            _ => (
                Meny { avtaler, fase: Fase::VenterTast },
                Handling { utskrift: String::new(), neste: Neste::VentPaaTast },
            ),
        },
        Fase::Avsluttet => (
            Meny { avtaler, fase: Fase::Avsluttet },
            Handling { utskrift: String::new(), neste: Neste::Avslutt },
        ),
    }
}

/// One step of the menu: takes the event `hendelse` into the menu `bok` and
/// hands out the menu as it is then and the action that follows.
///
/// Where the menu waits for the start time of a new appointment, the line of
/// the event is read as one and the zone of the machine is asked about it.
/// Which answer the zone gives is not for this library to say; whatever it
/// is, the result is what `etter_hendelse` makes of it. In every other
/// phase nothing is asked and the result is fixed by the menu and the event.
pub fn meny(bok: Meny, hendelse: Hendelse) -> (r: (Meny, Handling))
    ensures
        exists|oppslag: Oppslag|
            (r.0@, r.1@) == etter_hendelse(bok@, hendelse@, #[trigger] start_i(hendelse@, oppslag)),
        !(bok@.fase matches FaseSyn::LagerAvtale(u) && u is Start) ==> (r.0@, r.1@)
            == etter_hendelse(bok@, hendelse@, Err::<Stempel, DatoFeil>(DatoFeil::Format)),
{
    let start = match &bok.fase {
        Fase::LagerAvtale(Utkast::Start { .. }) => match &hendelse {
            Hendelse::Linje(linje) => les_tidspunkt(fjern_linjeskift(linje.as_str()), MINUTTFORMAT),
            _ => Err(DatoFeil::Format),
        },
        _ => Err(DatoFeil::Format),
    };
    let ghost spurt = bok@.fase matches FaseSyn::LagerAvtale(u) && u is Start && hendelse@ is Linje;
    let ghost vitne = if spurt {
        choose|oppslag: Oppslag|
            utfall_syn(start) == #[trigger] lest_tidspunkt(
                uten_linjeskift(hendelse@->Linje_0),
                MINUTTFORMAT@,
                oppslag,
            )
    } else {
        Oppslag::Ingen
    };
    let r = meny_med(bok, hendelse, start);
    assert((r.0@, r.1@) == etter_hendelse(bok@, hendelse@, start_i(hendelse@, vitne)));
    r
}

/// Saving leaves the book as it is: from the command to the pause after
/// it the list does not change, so what the caller is asked to write is
/// the list that the book held when the command came.
pub proof fn lov_lagring_endrer_ikke_listen(
    avtaler: Seq<AvtaleSyn>,
    linje: Seq<char>,
    start: Result<Stempel, DatoFeil>,
)
    requires
        som_u8(trimmet(linje)) == Some(2u8),
    ensures
        ({
            let foer = MenySyn { avtaler, fase: FaseSyn::VenterKommando };
            let (under, be_om) = etter_hendelse(foer, HendelseSyn::Linje(linje), start);
            let (etter, _) = etter_hendelse(under, HendelseSyn::Lagret, start);
            &&& be_om.neste == Neste::LagreFil
            &&& under.avtaler == avtaler
            &&& etter.avtaler == avtaler
            &&& etter.fase == FaseSyn::VenterTast
        }),
{
}

/// Reading the file adds to the book and takes nothing away: the list
/// afterwards is the list before with the appointments of the file behind
/// it, in the order of the file.
pub proof fn lov_lesing_legger_til(
    m: MenySyn,
    liste: Seq<AvtaleSyn>,
    start: Result<Stempel, DatoFeil>,
)
    requires
        m.fase == FaseSyn::Leser,
    ensures
        etter_hendelse(m, HendelseSyn::Lest(liste), start).0.avtaler == m.avtaler + liste,
{
}

/// A book that was empty holds, after the file has been read once, the
/// list of the file and nothing else; after the same file has been read a
/// second time it holds that list twice over.
pub proof fn lov_to_lesinger_dobler(
    liste: Seq<AvtaleSyn>,
    foerste: Seq<char>,
    andre: Seq<char>,
    start: Result<Stempel, DatoFeil>,
)
    requires
        som_u8(trimmet(foerste)) == Some(4u8),
        som_u8(trimmet(andre)) == Some(4u8),
    ensures
        ({
            let ny = MenySyn { avtaler: Seq::empty(), fase: FaseSyn::VenterKommando };
            let (m1, _) = etter_hendelse(ny, HendelseSyn::Linje(foerste), start);
            let (m2, _) = etter_hendelse(m1, HendelseSyn::Lest(liste), start);
            let (m3, _) = etter_hendelse(m2, HendelseSyn::Tast, start);
            let (m4, _) = etter_hendelse(m3, HendelseSyn::Linje(andre), start);
            let (m5, _) = etter_hendelse(m4, HendelseSyn::Lest(liste), start);
            &&& m2.avtaler == liste
            &&& m5.avtaler == liste + liste
        }),
{
}

} // verus!
