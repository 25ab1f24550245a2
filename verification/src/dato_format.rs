//! The text form of a start time in a saved file.

use vstd::prelude::*;
use crate::tid::formater;
use crate::tid::les_tidspunkt;
use crate::tid::lest_stempel;
use crate::tid::lest_tidspunkt;
use crate::tid::stempeltekst;
use crate::tid::utfall_syn;
use crate::tid::DatoFeil;
use crate::tid::Oppslag;
use crate::tid::Stempel;
use crate::tid::Tidspunkt;

verus! {

/// The format of a start time in a saved file: `YYYY-MM-DD HH:MM:SS`.
pub const FORMAT: &'static str = "%Y-%m-%d %H:%M:%S";

/// The text that stands in a saved file for the start time `date`.
pub fn serialize(date: &Tidspunkt) -> (r: String)
    ensures
        r@ == stempeltekst(date@),
{
    let stempel = date.stempel();
    formater(&stempel, FORMAT)
}

/// The start time that the text `s` of a saved file stands for.
///
/// `Err(DatoFeil::Format)` comes exactly where `s` is no date and time in
/// `FORMAT`. Where it is one, the zone of the machine decides: the start time
/// comes back if the wall clock shows it once, and the matching error if it
/// shows it never or twice.
pub fn deserialize(s: &str) -> (r: Result<Tidspunkt, DatoFeil>)
    ensures
        exists|oppslag: Oppslag| utfall_syn(r) == #[trigger] lest_tidspunkt(s@, FORMAT@, oppslag),
        utfall_syn(r) == Err::<Stempel, DatoFeil>(DatoFeil::Format) <==> lest_stempel(
            s@,
            FORMAT@,
        ) is None,
        r matches Ok(t) ==> lest_stempel(s@, FORMAT@) == Some(t@),
{
    les_tidspunkt(s, FORMAT)
}

} // verus!
