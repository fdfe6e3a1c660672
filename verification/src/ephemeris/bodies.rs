//! Identification of bodies by name and the choice of the model that supplies
//! the state of each body.
use vstd::prelude::*;
use crate::ephemeris::config::EphemerisMode;
use crate::ephemeris::spice::{string_views, SpiceError};
use crate::ephemeris::spice::naif_ids::{EARTH, JUPITER, MARS, MOON, SUN, VENUS};

verus! {

/// Whether two names are the same text.
fn same_name(a: &str, b: &str) -> (r: bool)
    ensures
        r == (a@ == b@),
{
    let x: String = a.to_owned();
    let y: String = b.to_owned();
    x == y
}

/// The NAIF code of a body known by name, if the engine knows it.
pub open spec fn naif_code(name: Seq<char>) -> Option<i32> {
    if name == "SUN"@ {
        Some(SUN)
    } else if name == "EARTH"@ {
        Some(EARTH)
    } else if name == "MOON"@ {
        Some(MOON)
    } else if name == "MARS"@ {
        Some(MARS)
    } else if name == "JUPITER"@ {
        Some(JUPITER)
    } else if name == "VENUS"@ {
        Some(VENUS)
    } else {
        None
    }
}

/// The NAIF code of a body, or `None` for a name the engine does not know.
pub fn naif_id(body: &str) -> (r: Option<i32>)
    ensures
        r == naif_code(body@),
{
    if same_name(body, "SUN") {
        Some(SUN)
    } else if same_name(body, "EARTH") {
        Some(EARTH)
    } else if same_name(body, "MOON") {
        Some(MOON)
    } else if same_name(body, "MARS") {
        Some(MARS)
    } else if same_name(body, "JUPITER") {
        Some(JUPITER)
    } else if same_name(body, "VENUS") {
        Some(VENUS)
    } else {
        None
    }
}

/// The message of the error raised for a body without a NAIF code.
pub open spec fn unknown_id_message(name: Seq<char>) -> Seq<char> {
    "ID no encontrado: "@ + name
}

/// The message of the error raised for a body the analytical model lacks.
pub open spec fn unknown_body_message(name: Seq<char>) -> Seq<char> {
    "Cuerpo no encontrado: "@ + name
}

/// `prefix` followed by `name`, as a new string.
fn message(prefix: &str, name: &str) -> (m: String)
    ensures
        m@ == prefix@ + name@,
{
    let mut m = String::from_str(prefix);
    m.append(name);
    m
}

/// The NAIF code of a body; an unknown name is a kernel error that names it.
pub fn body_name_to_id(body: &str) -> (r: Result<i32, SpiceError>)
    ensures
        naif_code(body@) is Some ==> r == Ok::<i32, SpiceError>(naif_code(body@)->0),
        naif_code(body@) is None ==> (r matches Err(SpiceError::KernelLoad(m))
            && m@ == unknown_id_message(body@)),
{
    match naif_id(body) {
        Some(id) => Ok(id),
        None => Err(SpiceError::KernelLoad(message("ID no encontrado: ", body))),
    }
}

/// The bodies the analytical Keplerian model can place.
#[derive(Clone, Copy, PartialEq, Eq, Debug, Structural)]
pub enum AnalyticalBody {
    Earth,
    Moon,
    Sun,
    Mars,
}

/// The analytical model of a body known by name, if there is one.
pub open spec fn analytical_model_of(name: Seq<char>) -> Option<AnalyticalBody> {
    if name == "EARTH"@ {
        Some(AnalyticalBody::Earth)
    } else if name == "MOON"@ {
        Some(AnalyticalBody::Moon)
    } else if name == "SUN"@ {
        Some(AnalyticalBody::Sun)
    } else if name == "MARS"@ {
        Some(AnalyticalBody::Mars)
    } else {
        None
    }
}

/// The analytical model of a body, or `None` for a body it does not cover.
pub fn analytical_body(body: &str) -> (r: Option<AnalyticalBody>)
    ensures
        r == analytical_model_of(body@),
{
    if same_name(body, "EARTH") {
        Some(AnalyticalBody::Earth)
    } else if same_name(body, "MOON") {
        Some(AnalyticalBody::Moon)
    } else if same_name(body, "SUN") {
        Some(AnalyticalBody::Sun)
    } else if same_name(body, "MARS") {
        Some(AnalyticalBody::Mars)
    } else {
        None
    }
}

/// Where the state of a body is taken from.
#[derive(Clone, Copy, PartialEq, Eq, Debug, Structural)]
pub enum BodySource {
    /// From the SPICE kernels, for the body with this NAIF code.
    Spice(i32),
    /// From the analytical model of this body.
    Analytical(AnalyticalBody),
}

/// The bodies that hybrid mode takes from SPICE when it is available.
pub open spec fn is_hybrid_spice_body(name: Seq<char>) -> bool {
    name == "EARTH"@ || name == "MOON"@ || name == "SUN"@
}

/// The analytical source of a body, if the model covers it.
pub open spec fn analytical_source(name: Seq<char>) -> Option<BodySource> {
    match analytical_model_of(name) {
        Some(b) => Some(BodySource::Analytical(b)),
        None => None,
    }
}

/// The source chosen for a body under a mode, given whether a SPICE context
/// is available; `None` when the body cannot be supplied.
pub open spec fn chosen_source(mode: EphemerisMode, name: Seq<char>, spice_available: bool) -> Option<BodySource> {
    match mode {
        EphemerisMode::Spice => {
            if spice_available {
                match naif_code(name) {
                    Some(id) => Some(BodySource::Spice(id)),
                    None => None,
                }
            } else {
                None
            }
        },
        EphemerisMode::Analytical => analytical_source(name),
        EphemerisMode::Hybrid => {
            if is_hybrid_spice_body(name) && spice_available {
                Some(BodySource::Spice(naif_code(name)->0))
            } else {
                analytical_source(name)
            }
        },
    }
}

/// Chooses where the state of `body` comes from.  SPICE mode needs a loaded
/// context and a known NAIF code; analytical mode needs a body the model
/// covers; hybrid mode takes Earth, Moon and Sun from SPICE when a context is
/// available and everything else from the analytical model.
pub fn select_body_source(mode: EphemerisMode, body: &str, spice_available: bool) -> (r: Result<BodySource, SpiceError>)
    ensures
        chosen_source(mode, body@, spice_available) is Some ==>
            r == Ok::<BodySource, SpiceError>(chosen_source(mode, body@, spice_available)->0),
        mode == EphemerisMode::Spice && !spice_available ==>
            r == Err::<BodySource, SpiceError>(SpiceError::NotLoaded),
        mode == EphemerisMode::Spice && spice_available && naif_code(body@) is None ==>
            (r matches Err(SpiceError::KernelLoad(m)) && m@ == unknown_id_message(body@)),
        mode != EphemerisMode::Spice && chosen_source(mode, body@, spice_available) is None ==>
            (r matches Err(SpiceError::KernelLoad(m)) && m@ == unknown_body_message(body@)),
        mode == EphemerisMode::Hybrid && spice_available && is_hybrid_spice_body(body@) ==>
            r == Ok::<BodySource, SpiceError>(BodySource::Spice(naif_code(body@)->0)),
        mode == EphemerisMode::Hybrid && !(spice_available && is_hybrid_spice_body(body@))
            && analytical_model_of(body@) is Some ==>
            r == Ok::<BodySource, SpiceError>(BodySource::Analytical(analytical_model_of(body@)->0)),
{
    match mode {
        EphemerisMode::Spice => {
            if spice_available {
                let id = body_name_to_id(body)?;
                Ok(BodySource::Spice(id))
            } else {
                Err(SpiceError::NotLoaded)
            }
        },
        EphemerisMode::Analytical => analytical_or_error(body),
        EphemerisMode::Hybrid => {
            let primary = same_name(body, "EARTH") || same_name(body, "MOON") || same_name(body, "SUN");
            if primary && spice_available {
                let id = body_name_to_id(body)?;
                Ok(BodySource::Spice(id))
            } else {
                analytical_or_error(body)
            }
        },
    }
}

/// The analytical source of a body, or the error that names a body the model
/// does not cover.
fn analytical_or_error(body: &str) -> (r: Result<BodySource, SpiceError>)
    ensures
        analytical_source(body@) is Some ==> r == Ok::<BodySource, SpiceError>(analytical_source(body@)->0),
        analytical_source(body@) is None ==>
            (r matches Err(SpiceError::KernelLoad(m)) && m@ == unknown_body_message(body@)),
{
    match analytical_body(body) {
        Some(b) => Ok(BodySource::Analytical(b)),
        None => Err(SpiceError::KernelLoad(message("Cuerpo no encontrado: ", body))),
    }
}

/// The bodies whose attraction the n-body model sums by default, in order.
pub open spec fn default_body_names() -> Seq<Seq<char>> {
    seq!["SUN"@, "EARTH"@, "MOON"@, "MARS"@, "JUPITER"@, "VENUS"@]
}

/// The bodies of the default ephemeris configuration.
pub fn default_bodies() -> (v: Vec<String>)
    ensures
        string_views(v@) == default_body_names(),
{
    let mut v: Vec<String> = Vec::new();
    v.push(String::from_str("SUN"));
    v.push(String::from_str("EARTH"));
    v.push(String::from_str("MOON"));
    v.push(String::from_str("MARS"));
    v.push(String::from_str("JUPITER"));
    v.push(String::from_str("VENUS"));
    assert(string_views(v@) =~= default_body_names());
    v
}

/// Every body of the default configuration has a NAIF code, so the n-body
/// sums never skip one nor fail on its name.
pub proof fn lemma_default_bodies_have_naif_codes(i: int)
    requires
        0 <= i < 6,
    ensures
        naif_code(default_body_names()[i]) is Some,
{
    reveal_strlit("SUN");
    reveal_strlit("EARTH");
    reveal_strlit("MOON");
    reveal_strlit("MARS");
    reveal_strlit("JUPITER");
    reveal_strlit("VENUS");
}

/// The bodies hybrid mode takes from SPICE have NAIF codes and are covered by
/// the analytical model, so hybrid mode supplies them with or without SPICE:
/// from SPICE, under their NAIF codes (399, 301 and 10), when a context is
/// loaded, and from the analytical model otherwise.
pub proof fn lemma_hybrid_bodies_always_supplied(mode: EphemerisMode, name: Seq<char>, spice_available: bool)
    requires
        mode == EphemerisMode::Hybrid,
        is_hybrid_spice_body(name),
    ensures
        naif_code(name) is Some,
        analytical_model_of(name) is Some,
        chosen_source(mode, name, spice_available) is Some,
        spice_available ==> chosen_source(mode, name, spice_available) == Some(BodySource::Spice(naif_code(name)->0)),
        !spice_available ==> chosen_source(mode, name, spice_available) == Some(
            BodySource::Analytical(analytical_model_of(name)->0),
        ),
        name == "EARTH"@ ==> naif_code(name) == Some(399i32),
        name == "MOON"@ ==> naif_code(name) == Some(301i32),
        name == "SUN"@ ==> naif_code(name) == Some(10i32),
{
    reveal_strlit("SUN");
    reveal_strlit("EARTH");
    reveal_strlit("MOON");
    assert("SUN"@.len() == 3 && "MOON"@.len() == 4 && "EARTH"@.len() == 5);
}

} // verus!
