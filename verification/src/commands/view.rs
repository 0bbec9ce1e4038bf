use vstd::prelude::*;
use vstd::string::*;
use crate::commands::process::texts;

verus! {

/// One measurement that was read out of a log entry. Identifiers are the
/// 128 bits of the backend's identifiers; the time is in milliseconds since
/// 1970.
#[derive(Debug)]
pub struct Pok {
    pub id: u128,
    pub log_id: u128,
    pub topic: String,
    pub operator: String,
    pub value: String,
    pub dimension: Option<String>,
    pub timestamp: i64,
}

/// The line that shows one measurement.
pub open spec fn measurement(topic: Seq<char>, dimension: Option<Seq<char>>, value: Seq<char>) -> Seq<
    char,
> {
    match dimension {
        Some(dimension) => topic + " ("@ + dimension + ")"@ + ": "@ + value,
        None => topic + ": "@ + value,
    }
}

impl Pok {
    /// The line that shows this measurement.
    pub open spec fn line(&self) -> Seq<char> {
        measurement(
            self.topic@,
            match self.dimension {
                Some(dimension) => Some(dimension@),
                None => None,
            },
            self.value@,
        )
    }
}

/// The lines under a log entry: one for each measurement that belongs to
/// it, in their order.
pub open spec fn log_lines(log_id: u128, poks: Seq<Pok>) -> Seq<Seq<char>> {
    poks.filter(|pok: Pok| pok.log_id == log_id).map_values(|pok: Pok| pok.line())
}

/// The line that shows one measurement: its topic, its dimension in
/// parentheses where it has one, a colon, and its value.
pub fn pok_line(pok: &Pok) -> (line: String)
    ensures
        line@ == pok.line(),
{
    let mut line = pok.topic.clone();
    match &pok.dimension {
        Some(dimension) => {
            line.append(" (");
            line.append(dimension.as_str());
            line.append(")");
        },
        None => {},
    }
    line.append(": ");
    line.append(pok.value.as_str());
    line
}

/// The lines to show under the log entry `log_id`: its measurements, out of
/// all that were found.
pub fn view_command(log_id: u128, poks: &Vec<Pok>) -> (lines: Vec<String>)
    ensures
        texts(lines@) == log_lines(log_id, poks@),
{
    let ghost belongs = |pok: Pok| pok.log_id == log_id;
    let ghost shown = |pok: Pok| pok.line();
    let mut lines: Vec<String> = Vec::new();
    let mut i: usize = 0;
    assert(poks@.take(0).filter(belongs) =~= Seq::<Pok>::empty());
    while i < poks.len()
        invariant
            i <= poks.len(),
            belongs == |pok: Pok| pok.log_id == log_id,
            shown == |pok: Pok| pok.line(),
            texts(lines@) =~= poks@.take(i as int).filter(belongs).map_values(shown),
        decreases poks.len() - i,
    {
        let pok = &poks[i];
        proof {
            let seen = poks@.take(i as int);
            assert(poks@.take(i + 1) =~= seen.push(*pok));
            Seq::lemma_filter_push(seen, *pok, belongs);
        }
        if pok.log_id == log_id {
            let ghost before = lines@;
            let ghost kept = poks@.take(i as int).filter(belongs);
            lines.push(pok_line(pok));
            assert(texts(lines@) =~= texts(before).push(pok.line()));
            assert(kept.push(*pok).map_values(shown) =~= kept.map_values(shown).push(pok.line()));
        }
        i += 1;
    }
    assert(poks@.take(poks.len() as int) =~= poks@);
    lines
}

} // verus!
