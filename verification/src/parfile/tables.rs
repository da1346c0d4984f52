//! The parameters that a parameter file can hold, by kind of value.
//!
//! Each table is an ordered list of rows. A row gives one spelling under
//! which a parameter is accepted, the canonical name that the spelling
//! stands for, and what the parameter means. A parameter with aliases has
//! one row for its canonical name and one for each alias, in that order. A
//! key is looked up from the top, and the first row that spells it wins.

use vstd::prelude::*;
use crate::text::same_text;

verus! {

/// One spelling of a parameter.
#[derive(Debug, Clone, Copy)]
pub struct ParamRow {
    /// The spelling that a file may use.
    pub key: &'static str,
    /// The canonical name of the parameter.
    pub name: &'static str,
    /// What the parameter means.
    pub description: &'static str,
}

/// The first row of `rows` whose spelling is `key`.
pub open spec fn find_row(rows: Seq<ParamRow>, key: Seq<char>) -> Option<ParamRow>
    decreases rows.len(),
{
    if rows.len() == 0 {
        None
    } else if rows[0].key@ == key {
        Some(rows[0])
    } else {
        find_row(rows.skip(1), key)
    }
}

/// A key that no row spells is not found.
pub proof fn lemma_find_row_none(rows: Seq<ParamRow>, key: Seq<char>)
    requires
        forall|i: int| 0 <= i < rows.len() ==> (#[trigger] rows[i]).key@ != key,
    ensures
        find_row(rows, key) is None,
    decreases rows.len(),
{
    if rows.len() > 0 {
        assert(rows[0].key@ != key);
        assert forall|i: int| 0 <= i < rows.skip(1).len() implies (#[trigger] rows.skip(1)[i]).key@
            != key by {
            assert(rows[i + 1].key@ != key);
        }
        lemma_find_row_none(rows.skip(1), key);
    }
}

/// A key is found at the first row that spells it.
pub proof fn lemma_find_row_at(rows: Seq<ParamRow>, key: Seq<char>, at: int)
    requires
        0 <= at < rows.len(),
        rows[at].key@ == key,
        forall|i: int| 0 <= i < at ==> (#[trigger] rows[i]).key@ != key,
    ensures
        find_row(rows, key) == Some(rows[at]),
    decreases rows.len(),
{
    if at > 0 {
        assert(rows[0].key@ != key);
        assert forall|i: int| 0 <= i < at - 1 implies (#[trigger] rows.skip(1)[i]).key@ != key by {
            assert(rows[i + 1].key@ != key);
        }
        lemma_find_row_at(rows.skip(1), key, at - 1);
    }
}

/// A key is looked up in two tables put end to end as in the first, and
/// where the first does not hold it, as in the second.
pub proof fn lemma_find_row_append(a: Seq<ParamRow>, b: Seq<ParamRow>, key: Seq<char>)
    ensures
        find_row(a + b, key) == match find_row(a, key) {
            Some(row) => Some(row),
            None => find_row(b, key),
        },
    decreases a.len(),
{
    if a.len() == 0 {
        assert(a + b =~= b);
    } else {
        assert((a + b)[0] == a[0]);
        assert((a + b).skip(1) =~= a.skip(1) + b);
        lemma_find_row_append(a.skip(1), b, key);
    }
}

/// What is found is a row of the table, and spells the key.
pub proof fn lemma_find_row_member(rows: Seq<ParamRow>, key: Seq<char>)
    ensures
        find_row(rows, key) matches Some(row) ==> row.key@ == key && exists|i: int|
            0 <= i < rows.len() && #[trigger] rows[i] == row,
    decreases rows.len(),
{
    if rows.len() > 0 {
        if rows[0].key@ == key {
            assert(rows[0] == find_row(rows, key)->0);
        } else {
            lemma_find_row_member(rows.skip(1), key);
            if find_row(rows, key) is Some {
                let row = find_row(rows, key)->0;
                let i = choose|i: int| 0 <= i < rows.skip(1).len() && #[trigger] rows.skip(1)[i] == row;
                assert(rows[i + 1] == row);
            }
        }
    }
}

/// Looks a key up in a table.
pub fn lookup(rows: &Vec<ParamRow>, key: &str) -> (r: Option<ParamRow>)
    ensures
        r == find_row(rows@, key@),
{
    let mut i: usize = 0;
    assert(rows@.skip(0) =~= rows@);
    while i < rows.len()
        invariant
            i <= rows.len(),
            find_row(rows@, key@) == find_row(rows@.skip(i as int), key@),
        decreases rows.len() - i,
    {
        assert(rows@.skip(i as int).skip(1) =~= rows@.skip(i + 1));
        if same_text(rows[i].key, key) {
            return Some(rows[i]);
        }
        i = i + 1;
    }
    None
}

/// Rows 1 to 16 of the table of numbers.
pub open spec fn float_rows_part_1() -> Seq<ParamRow> {
    seq![
        ParamRow { key: "F0", name: "F0", description: "The rotational frequency (Hz)" },
        ParamRow { key: "F1", name: "F1", description: "The 1st time derivative of the rotational frequency (Hz / s)" },
        ParamRow { key: "F2", name: "F2", description: "The 2nd time derivative of the rotational frequency (Hz / s^2)" },
        ParamRow { key: "F3", name: "F3", description: "The 3rd time derivative of the rotational frequency (Hz / s^3)" },
        ParamRow { key: "F4", name: "F4", description: "The 4th time derivative of the rotational frequency (Hz / s^4)" },
        ParamRow { key: "F5", name: "F5", description: "The 5th time derivative of the rotational frequency (Hz / s^5)" },
        ParamRow { key: "F6", name: "F6", description: "The 6th time derivative of the rotational frequency (Hz / s^6)" },
        ParamRow { key: "P0", name: "P0", description: "Spin period of pulsar (s)" },
        ParamRow { key: "P", name: "P0", description: "Spin period of pulsar (s)" },
        ParamRow { key: "P1", name: "P1", description: "Spin down rate of pulsar (10^-15)" },
        ParamRow { key: "PDOT", name: "P1", description: "Spin down rate of pulsar (10^-15)" },
        ParamRow { key: "PEPOCH", name: "PEPOCH", description: "Epoch of period measurement (MJD)" },
        ParamRow { key: "ELONG", name: "ELONG", description: "Ecliptic longitude (deg)" },
        ParamRow { key: "LAMBDA", name: "ELONG", description: "Ecliptic longitude (deg)" },
        ParamRow { key: "ELAT", name: "ELAT", description: "Ecliptic latitude (deg)" },
        ParamRow { key: "BETA", name: "ELAT", description: "Ecliptic latitude (deg)" },
    ]
}

/// Rows 1 to 16 of the table of numbers.
fn float_table_part_1() -> (rows: Vec<ParamRow>)
    ensures
        rows@ == float_rows_part_1(),
{
    let mut rows: Vec<ParamRow> = Vec::new();
    rows.push(ParamRow { key: "F0", name: "F0", description: "The rotational frequency (Hz)" });
    rows.push(ParamRow { key: "F1", name: "F1", description: "The 1st time derivative of the rotational frequency (Hz / s)" });
    rows.push(ParamRow { key: "F2", name: "F2", description: "The 2nd time derivative of the rotational frequency (Hz / s^2)" });
    rows.push(ParamRow { key: "F3", name: "F3", description: "The 3rd time derivative of the rotational frequency (Hz / s^3)" });
    rows.push(ParamRow { key: "F4", name: "F4", description: "The 4th time derivative of the rotational frequency (Hz / s^4)" });
    rows.push(ParamRow { key: "F5", name: "F5", description: "The 5th time derivative of the rotational frequency (Hz / s^5)" });
    rows.push(ParamRow { key: "F6", name: "F6", description: "The 6th time derivative of the rotational frequency (Hz / s^6)" });
    rows.push(ParamRow { key: "P0", name: "P0", description: "Spin period of pulsar (s)" });
    rows.push(ParamRow { key: "P", name: "P0", description: "Spin period of pulsar (s)" });
    rows.push(ParamRow { key: "P1", name: "P1", description: "Spin down rate of pulsar (10^-15)" });
    rows.push(ParamRow { key: "PDOT", name: "P1", description: "Spin down rate of pulsar (10^-15)" });
    rows.push(ParamRow { key: "PEPOCH", name: "PEPOCH", description: "Epoch of period measurement (MJD)" });
    rows.push(ParamRow { key: "ELONG", name: "ELONG", description: "Ecliptic longitude (deg)" });
    rows.push(ParamRow { key: "LAMBDA", name: "ELONG", description: "Ecliptic longitude (deg)" });
    rows.push(ParamRow { key: "ELAT", name: "ELAT", description: "Ecliptic latitude (deg)" });
    rows.push(ParamRow { key: "BETA", name: "ELAT", description: "Ecliptic latitude (deg)" });
    rows
}

/// Rows 17 to 32 of the table of numbers.
pub open spec fn float_rows_part_2() -> Seq<ParamRow> {
    seq![
        ParamRow { key: "POSEPOCH", name: "POSEPOCH", description: "Epoch of position measurement (MJD)" },
        ParamRow { key: "PMLAMBDA", name: "PMLAMBDA", description: "Proper motion in ecliptic longitude (mas/yr)" },
        ParamRow { key: "PMELONG", name: "PMLAMBDA", description: "Proper motion in ecliptic longitude (mas/yr)" },
        ParamRow { key: "PMBETA", name: "PMBETA", description: "Proper motion in ecliptic latitude (mas/yr)" },
        ParamRow { key: "PMELAT", name: "PMBETA", description: "Proper motion in ecliptic latitude (mas/yr)" },
        ParamRow { key: "PMRA", name: "PMRA", description: "Proper motion in right ascension (mas/yr)" },
        ParamRow { key: "PMDEC", name: "PMDEC", description: "proper motion in declination (mas/yr)" },
        ParamRow { key: "DMEPOCH", name: "DMEPOCH", description: "Epoch of DM measurement (MJD)" },
        ParamRow { key: "DM", name: "DM", description: "The dispersion measure (cm^-3 pc)" },
        ParamRow { key: "DM1", name: "DM1", description: "1st time derivative of the dispersion measure (cm^-3 pc / s)" },
        ParamRow { key: "DM2", name: "DM2", description: "2nd time derivative of the dispersion measure (cm^-3 pc / s^2)" },
        ParamRow { key: "DM3", name: "DM3", description: "3rd time derivative of the dispersion measure (cm^-3 pc / s^3)" },
        ParamRow { key: "DM4", name: "DM4", description: "4th time derivative of the dispersion measure (cm^-3 pc / s^4)" },
        ParamRow { key: "DM5", name: "DM5", description: "5th time derivative of the dispersion measure (cm^-3 pc / s^5)" },
        ParamRow { key: "DM6", name: "DM6", description: "6th time derivative of the dispersion measure (cm^-3 pc / s^6)" },
        ParamRow { key: "FDD", name: "FDD", description: "Frequency-dependent delay" },
    ]
}

/// Rows 17 to 32 of the table of numbers.
fn float_table_part_2() -> (rows: Vec<ParamRow>)
    ensures
        rows@ == float_rows_part_2(),
{
    let mut rows: Vec<ParamRow> = Vec::new();
    rows.push(ParamRow { key: "POSEPOCH", name: "POSEPOCH", description: "Epoch of position measurement (MJD)" });
    rows.push(ParamRow { key: "PMLAMBDA", name: "PMLAMBDA", description: "Proper motion in ecliptic longitude (mas/yr)" });
    rows.push(ParamRow { key: "PMELONG", name: "PMLAMBDA", description: "Proper motion in ecliptic longitude (mas/yr)" });
    rows.push(ParamRow { key: "PMBETA", name: "PMBETA", description: "Proper motion in ecliptic latitude (mas/yr)" });
    rows.push(ParamRow { key: "PMELAT", name: "PMBETA", description: "Proper motion in ecliptic latitude (mas/yr)" });
    rows.push(ParamRow { key: "PMRA", name: "PMRA", description: "Proper motion in right ascension (mas/yr)" });
    rows.push(ParamRow { key: "PMDEC", name: "PMDEC", description: "proper motion in declination (mas/yr)" });
    rows.push(ParamRow { key: "DMEPOCH", name: "DMEPOCH", description: "Epoch of DM measurement (MJD)" });
    rows.push(ParamRow { key: "DM", name: "DM", description: "The dispersion measure (cm^-3 pc)" });
    rows.push(ParamRow { key: "DM1", name: "DM1", description: "1st time derivative of the dispersion measure (cm^-3 pc / s)" });
    rows.push(ParamRow { key: "DM2", name: "DM2", description: "2nd time derivative of the dispersion measure (cm^-3 pc / s^2)" });
    rows.push(ParamRow { key: "DM3", name: "DM3", description: "3rd time derivative of the dispersion measure (cm^-3 pc / s^3)" });
    rows.push(ParamRow { key: "DM4", name: "DM4", description: "4th time derivative of the dispersion measure (cm^-3 pc / s^4)" });
    rows.push(ParamRow { key: "DM5", name: "DM5", description: "5th time derivative of the dispersion measure (cm^-3 pc / s^5)" });
    rows.push(ParamRow { key: "DM6", name: "DM6", description: "6th time derivative of the dispersion measure (cm^-3 pc / s^6)" });
    rows.push(ParamRow { key: "FDD", name: "FDD", description: "Frequency-dependent delay" });
    rows
}

/// Rows 33 to 48 of the table of numbers.
pub open spec fn float_rows_part_3() -> Seq<ParamRow> {
    seq![
        ParamRow { key: "PX", name: "PX", description: "Parallax (mas)" },
        ParamRow { key: "PMRV", name: "PMRV", description: "Radial velocity" },
        ParamRow { key: "WAVE_OM", name: "WAVE_OM", description: "Frequency of fundamental sinusoid for whitening" },
        ParamRow { key: "WAVE1", name: "WAVE1", description: "Amplitude of sine and cosine for the 1st harmonic for whitening" },
        ParamRow { key: "WAVE2", name: "WAVE2", description: "Amplitude of sine and cosine for the 2nd harmonic for whitening" },
        ParamRow { key: "WAVE3", name: "WAVE3", description: "Amplitude of sine and cosine for the 3rd harmonic for whitening" },
        ParamRow { key: "WAVE4", name: "WAVE4", description: "Amplitude of sine and cosine for the 4th harmonic for whitening" },
        ParamRow { key: "WAVE5", name: "WAVE5", description: "Amplitude of sine and cosine for the 5th harmonic for whitening" },
        ParamRow { key: "WAVE6", name: "WAVE6", description: "Amplitude of sine and cosine for the 6th harmonic for whitening" },
        ParamRow { key: "TRES", name: "TRES", description: "Rms timing residual (µs)" },
        ParamRow { key: "NE1AU", name: "NE1AU", description: "The electron density at 1 AU due to the solar wind" },
        ParamRow { key: "TZRMJD", name: "TZRMJD", description: "Missing info" },
        ParamRow { key: "TZRFRQ", name: "TZRFRQ", description: "Missing info" },
        ParamRow { key: "START", name: "START", description: "Missing info" },
        ParamRow { key: "FINISH", name: "FINISH", description: "Missing info" },
        ParamRow { key: "A1", name: "A1", description: "Projected semi-major axis of orbit (lt-sec)" },
    ]
}

/// Rows 33 to 48 of the table of numbers.
fn float_table_part_3() -> (rows: Vec<ParamRow>)
    ensures
        rows@ == float_rows_part_3(),
{
    let mut rows: Vec<ParamRow> = Vec::new();
    rows.push(ParamRow { key: "PX", name: "PX", description: "Parallax (mas)" });
    rows.push(ParamRow { key: "PMRV", name: "PMRV", description: "Radial velocity" });
    rows.push(ParamRow { key: "WAVE_OM", name: "WAVE_OM", description: "Frequency of fundamental sinusoid for whitening" });
    rows.push(ParamRow { key: "WAVE1", name: "WAVE1", description: "Amplitude of sine and cosine for the 1st harmonic for whitening" });
    rows.push(ParamRow { key: "WAVE2", name: "WAVE2", description: "Amplitude of sine and cosine for the 2nd harmonic for whitening" });
    rows.push(ParamRow { key: "WAVE3", name: "WAVE3", description: "Amplitude of sine and cosine for the 3rd harmonic for whitening" });
    rows.push(ParamRow { key: "WAVE4", name: "WAVE4", description: "Amplitude of sine and cosine for the 4th harmonic for whitening" });
    rows.push(ParamRow { key: "WAVE5", name: "WAVE5", description: "Amplitude of sine and cosine for the 5th harmonic for whitening" });
    rows.push(ParamRow { key: "WAVE6", name: "WAVE6", description: "Amplitude of sine and cosine for the 6th harmonic for whitening" });
    rows.push(ParamRow { key: "TRES", name: "TRES", description: "Rms timing residual (µs)" });
    rows.push(ParamRow { key: "NE1AU", name: "NE1AU", description: "The electron density at 1 AU due to the solar wind" });
    rows.push(ParamRow { key: "TZRMJD", name: "TZRMJD", description: "Missing info" });
    rows.push(ParamRow { key: "TZRFRQ", name: "TZRFRQ", description: "Missing info" });
    rows.push(ParamRow { key: "START", name: "START", description: "Missing info" });
    rows.push(ParamRow { key: "FINISH", name: "FINISH", description: "Missing info" });
    rows.push(ParamRow { key: "A1", name: "A1", description: "Projected semi-major axis of orbit (lt-sec)" });
    rows
}

/// Rows 49 to 64 of the table of numbers.
pub open spec fn float_rows_part_4() -> Seq<ParamRow> {
    seq![
        ParamRow { key: "PB", name: "PB", description: "Orbital period (days)" },
        ParamRow { key: "P1", name: "P1", description: "1st time derivative of binary period (days / s)" },
        ParamRow { key: "PBDOT", name: "P1", description: "1st time derivative of binary period (days / s)" },
        ParamRow { key: "PB2", name: "PB2", description: "2nd time derivative of binary period (days / s^2)" },
        ParamRow { key: "PB2", name: "PB2", description: "3rd time derivative of binary period (days / s^3)" },
        ParamRow { key: "PB3", name: "PB3", description: "4th time derivative of binary period (days / s^4)" },
        ParamRow { key: "PB5", name: "PB5", description: "5th time derivative of binary period (days / s^5)" },
        ParamRow { key: "PB6", name: "PB6", description: "6th time derivative of binary period (days / s^6)" },
        ParamRow { key: "ECC", name: "ECC", description: "Eccentricity of orbit" },
        ParamRow { key: "E", name: "ECC", description: "Eccentricity of orbit" },
        ParamRow { key: "T0", name: "T0", description: "Epoch of periastron (MJD)" },
        ParamRow { key: "OM", name: "OM", description: "Longitude of periastron (degrees)" },
        ParamRow { key: "TASC", name: "TASC", description: "Epoch of ascending node (MJD)" },
        ParamRow { key: "EPS1", name: "EPS1", description: "ECC×sin(OM) for ELL1 model" },
        ParamRow { key: "EPS2", name: "EPS2", description: "ECC×cos(OM) for ELL1 model" },
        ParamRow { key: "OMDOT", name: "OMDOT", description: "Rate of advance of periastron (deg/yr)" },
    ]
}

/// Rows 49 to 64 of the table of numbers.
fn float_table_part_4() -> (rows: Vec<ParamRow>)
    ensures
        rows@ == float_rows_part_4(),
{
    let mut rows: Vec<ParamRow> = Vec::new();
    rows.push(ParamRow { key: "PB", name: "PB", description: "Orbital period (days)" });
    rows.push(ParamRow { key: "P1", name: "P1", description: "1st time derivative of binary period (days / s)" });
    rows.push(ParamRow { key: "PBDOT", name: "P1", description: "1st time derivative of binary period (days / s)" });
    rows.push(ParamRow { key: "PB2", name: "PB2", description: "2nd time derivative of binary period (days / s^2)" });
    rows.push(ParamRow { key: "PB2", name: "PB2", description: "3rd time derivative of binary period (days / s^3)" });
    rows.push(ParamRow { key: "PB3", name: "PB3", description: "4th time derivative of binary period (days / s^4)" });
    rows.push(ParamRow { key: "PB5", name: "PB5", description: "5th time derivative of binary period (days / s^5)" });
    rows.push(ParamRow { key: "PB6", name: "PB6", description: "6th time derivative of binary period (days / s^6)" });
    rows.push(ParamRow { key: "ECC", name: "ECC", description: "Eccentricity of orbit" });
    rows.push(ParamRow { key: "E", name: "ECC", description: "Eccentricity of orbit" });
    rows.push(ParamRow { key: "T0", name: "T0", description: "Epoch of periastron (MJD)" });
    rows.push(ParamRow { key: "OM", name: "OM", description: "Longitude of periastron (degrees)" });
    rows.push(ParamRow { key: "TASC", name: "TASC", description: "Epoch of ascending node (MJD)" });
    rows.push(ParamRow { key: "EPS1", name: "EPS1", description: "ECC×sin(OM) for ELL1 model" });
    rows.push(ParamRow { key: "EPS2", name: "EPS2", description: "ECC×cos(OM) for ELL1 model" });
    rows.push(ParamRow { key: "OMDOT", name: "OMDOT", description: "Rate of advance of periastron (deg/yr)" });
    rows
}

/// Rows 65 to 80 of the table of numbers.
pub open spec fn float_rows_part_5() -> Seq<ParamRow> {
    seq![
        ParamRow { key: "A1DOT", name: "A1DOT", description: "Rate of change of projected semi-major axis (10^-12)" },
        ParamRow { key: "XDOT", name: "A1DOT", description: "Rate of change of projected semi-major axis (10^-12)" },
        ParamRow { key: "SINI", name: "SINI", description: "Sine of inclination angle" },
        ParamRow { key: "M2", name: "M2", description: "Companion mass (solar masses)" },
        ParamRow { key: "XPBDOT", name: "XPBDOT", description: "Rate of change of orbital period minus GR prediction" },
        ParamRow { key: "ECCDOT", name: "ECCDOT", description: "Rate of change of eccentricity" },
        ParamRow { key: "EDOT", name: "ECCDOT", description: "Rate of change of eccentricity" },
        ParamRow { key: "GAMMA", name: "GAMMA", description: "Post-Keplerian ’gamma’ term (s)" },
        ParamRow { key: "DR", name: "DR", description: "Relativistic deformation of the orbit" },
        ParamRow { key: "DTH", name: "DTH", description: "Relativistic deformation of the orbit" },
        ParamRow { key: "A0", name: "A0", description: "Aberration parameter A0" },
        ParamRow { key: "B0", name: "B0", description: "Aberration parameter B0" },
        ParamRow { key: "BP", name: "BP", description: "Tensor multi-scalar parameter beta-prime" },
        ParamRow { key: "BPP", name: "BPP", description: "Tensor multi-scalar parameter beta-prime-prime" },
        ParamRow { key: "DTHETA", name: "DTHETA", description: "Relativistic deformation of the orbit" },
        ParamRow { key: "XOMDOT", name: "XOMDOT", description: "Rate of periastron advance minus GR prediction (deg/yr)" },
    ]
}

/// Rows 65 to 80 of the table of numbers.
fn float_table_part_5() -> (rows: Vec<ParamRow>)
    ensures
        rows@ == float_rows_part_5(),
{
    let mut rows: Vec<ParamRow> = Vec::new();
    rows.push(ParamRow { key: "A1DOT", name: "A1DOT", description: "Rate of change of projected semi-major axis (10^-12)" });
    rows.push(ParamRow { key: "XDOT", name: "A1DOT", description: "Rate of change of projected semi-major axis (10^-12)" });
    rows.push(ParamRow { key: "SINI", name: "SINI", description: "Sine of inclination angle" });
    rows.push(ParamRow { key: "M2", name: "M2", description: "Companion mass (solar masses)" });
    rows.push(ParamRow { key: "XPBDOT", name: "XPBDOT", description: "Rate of change of orbital period minus GR prediction" });
    rows.push(ParamRow { key: "ECCDOT", name: "ECCDOT", description: "Rate of change of eccentricity" });
    rows.push(ParamRow { key: "EDOT", name: "ECCDOT", description: "Rate of change of eccentricity" });
    rows.push(ParamRow { key: "GAMMA", name: "GAMMA", description: "Post-Keplerian ’gamma’ term (s)" });
    rows.push(ParamRow { key: "DR", name: "DR", description: "Relativistic deformation of the orbit" });
    rows.push(ParamRow { key: "DTH", name: "DTH", description: "Relativistic deformation of the orbit" });
    rows.push(ParamRow { key: "A0", name: "A0", description: "Aberration parameter A0" });
    rows.push(ParamRow { key: "B0", name: "B0", description: "Aberration parameter B0" });
    rows.push(ParamRow { key: "BP", name: "BP", description: "Tensor multi-scalar parameter beta-prime" });
    rows.push(ParamRow { key: "BPP", name: "BPP", description: "Tensor multi-scalar parameter beta-prime-prime" });
    rows.push(ParamRow { key: "DTHETA", name: "DTHETA", description: "Relativistic deformation of the orbit" });
    rows.push(ParamRow { key: "XOMDOT", name: "XOMDOT", description: "Rate of periastron advance minus GR prediction (deg/yr)" });
    rows
}

/// Rows 81 to 88 of the table of numbers.
pub open spec fn float_rows_part_6() -> Seq<ParamRow> {
    seq![
        ParamRow { key: "EPS1DOT", name: "EPS1DOT", description: "Missing info" },
        ParamRow { key: "EPS2DOT", name: "EPS2DOT", description: "Missing info" },
        ParamRow { key: "KOM", name: "KOM", description: "Missing info" },
        ParamRow { key: "KIN", name: "KIN", description: "Missing info" },
        ParamRow { key: "SHAPMAX", name: "SHAPMAX", description: "Missing info" },
        ParamRow { key: "MTOT", name: "MTOT", description: "Total system mass solar masses" },
        ParamRow { key: "NE_SW", name: "NE_SW", description: "Encountered in the wild" },
        ParamRow { key: "CHI2R", name: "CHI2R", description: "Encountered in the wild" },
    ]
}

/// Rows 81 to 88 of the table of numbers.
fn float_table_part_6() -> (rows: Vec<ParamRow>)
    ensures
        rows@ == float_rows_part_6(),
{
    let mut rows: Vec<ParamRow> = Vec::new();
    rows.push(ParamRow { key: "EPS1DOT", name: "EPS1DOT", description: "Missing info" });
    rows.push(ParamRow { key: "EPS2DOT", name: "EPS2DOT", description: "Missing info" });
    rows.push(ParamRow { key: "KOM", name: "KOM", description: "Missing info" });
    rows.push(ParamRow { key: "KIN", name: "KIN", description: "Missing info" });
    rows.push(ParamRow { key: "SHAPMAX", name: "SHAPMAX", description: "Missing info" });
    rows.push(ParamRow { key: "MTOT", name: "MTOT", description: "Total system mass solar masses" });
    rows.push(ParamRow { key: "NE_SW", name: "NE_SW", description: "Encountered in the wild" });
    rows.push(ParamRow { key: "CHI2R", name: "CHI2R", description: "Encountered in the wild" });
    rows
}

/// The parameters whose value is a number, with optional fit information.
pub open spec fn float_rows() -> Seq<ParamRow> {
    float_rows_part_1() + float_rows_part_2() + float_rows_part_3() + float_rows_part_4() + float_rows_part_5() + float_rows_part_6()
}

/// The parameters whose value is a number, with optional fit information.
pub fn float_table() -> (rows: Vec<ParamRow>)
    ensures
        rows@ == float_rows(),
{
    let mut rows = float_table_part_1();
    let mut part = float_table_part_2();
    rows.append(&mut part);
    let mut part = float_table_part_3();
    rows.append(&mut part);
    let mut part = float_table_part_4();
    rows.append(&mut part);
    let mut part = float_table_part_5();
    rows.append(&mut part);
    let mut part = float_table_part_6();
    rows.append(&mut part);
    rows
}

/// The parameters whose value is a count.
pub open spec fn count_rows() -> Seq<ParamRow> {
    seq![
        ParamRow { key: "NITS", name: "NITS", description: "Number of iterations for the fitting routines" },
        ParamRow { key: "IBOOT", name: "IBOOT", description: "Number of iterations used in the bootstrap fitting method" },
        ParamRow { key: "NTOA", name: "NTOA", description: "Number of TOAs" },
    ]
}

/// The parameters whose value is a count.
pub fn count_table() -> (rows: Vec<ParamRow>)
    ensures
        rows@ == count_rows(),
{
    let mut rows: Vec<ParamRow> = Vec::new();
    rows.push(ParamRow { key: "NITS", name: "NITS", description: "Number of iterations for the fitting routines" });
    rows.push(ParamRow { key: "IBOOT", name: "IBOOT", description: "Number of iterations used in the bootstrap fitting method" });
    rows.push(ParamRow { key: "NTOA", name: "NTOA", description: "Number of TOAs" });
    rows
}

/// The parameters whose value is a word of text.
pub open spec fn text_rows() -> Seq<ParamRow> {
    seq![
        ParamRow { key: "PSR", name: "PSR", description: "Definition of clock to use" },
        ParamRow { key: "PSRJ", name: "PSR", description: "Definition of clock to use" },
        ParamRow { key: "PSRB", name: "PSR", description: "Definition of clock to use" },
        ParamRow { key: "CLK", name: "CLK", description: "Definition of clock to use" },
        ParamRow { key: "CLK_CORR_CHAIN", name: "CLK_CORR_CHAIN", description: "Clock correction chain(s) to use" },
        ParamRow { key: "EPHEM", name: "EPHEM", description: "Which solar system ephemeris to use" },
        ParamRow { key: "TZRSITE", name: "TZRSITE", description: "Missing info" },
        ParamRow { key: "NSPAN", name: "NSPAN", description: "Missing info" },
        ParamRow { key: "TSPAN", name: "NSPAN", description: "Missing info" },
        ParamRow { key: "EPHVER", name: "EPHVER", description: "Missing info" },
        ParamRow { key: "TRACK", name: "TRACK", description: "Missing info" },
        ParamRow { key: "AFAC", name: "AFAC", description: "Missing info" },
        ParamRow { key: "DM_SERIES", name: "DM_SERIES", description: "Missing info" },
    ]
}

/// The parameters whose value is a word of text.
pub fn text_table() -> (rows: Vec<ParamRow>)
    ensures
        rows@ == text_rows(),
{
    let mut rows: Vec<ParamRow> = Vec::new();
    rows.push(ParamRow { key: "PSR", name: "PSR", description: "Definition of clock to use" });
    rows.push(ParamRow { key: "PSRJ", name: "PSR", description: "Definition of clock to use" });
    rows.push(ParamRow { key: "PSRB", name: "PSR", description: "Definition of clock to use" });
    rows.push(ParamRow { key: "CLK", name: "CLK", description: "Definition of clock to use" });
    rows.push(ParamRow { key: "CLK_CORR_CHAIN", name: "CLK_CORR_CHAIN", description: "Clock correction chain(s) to use" });
    rows.push(ParamRow { key: "EPHEM", name: "EPHEM", description: "Which solar system ephemeris to use" });
    rows.push(ParamRow { key: "TZRSITE", name: "TZRSITE", description: "Missing info" });
    rows.push(ParamRow { key: "NSPAN", name: "NSPAN", description: "Missing info" });
    rows.push(ParamRow { key: "TSPAN", name: "NSPAN", description: "Missing info" });
    rows.push(ParamRow { key: "EPHVER", name: "EPHVER", description: "Missing info" });
    rows.push(ParamRow { key: "TRACK", name: "TRACK", description: "Missing info" });
    rows.push(ParamRow { key: "AFAC", name: "AFAC", description: "Missing info" });
    rows.push(ParamRow { key: "DM_SERIES", name: "DM_SERIES", description: "Missing info" });
    rows
}

/// The switches.
pub open spec fn flag_rows() -> Seq<ParamRow> {
    seq![
        ParamRow { key: "TEMPO1", name: "TEMPO1", description: "Whether to run in tempo emulation mode: e.g. TDB units (Default=false)" },
        ParamRow { key: "NOTRACK", name: "NOTRACK", description: "Switch oﬀ tracking mode" },
        ParamRow { key: "NO_SS_SHAPIRO", name: "NO_SS_SHAPIRO", description: "Switch oﬀ the calculation of the Solar system Shapiro delay" },
        ParamRow { key: "IPM", name: "IPM", description: "Switch oﬀ calculation of the interplanetary medium" },
        ParamRow { key: "DILATE_FREQ", name: "DILATE_FREQ", description: "Whether or not to apply gravitational redshift and time dilation to observing frequency" },
        ParamRow { key: "PLANET_SHAPIRO", name: "PLANET_SHAPIRO", description: "Missing info" },
        ParamRow { key: "CORRECT_TROPOSPHERE", name: "CORRECT_TROPOSPHERE", description: "Whether or not to apply tropospheric delay corrections" },
        ParamRow { key: "DILATEFREQ", name: "DILATEFREQ", description: "Encountered in the wild" },
    ]
}

/// The switches.
pub fn flag_table() -> (rows: Vec<ParamRow>)
    ensures
        rows@ == flag_rows(),
{
    let mut rows: Vec<ParamRow> = Vec::new();
    rows.push(ParamRow { key: "TEMPO1", name: "TEMPO1", description: "Whether to run in tempo emulation mode: e.g. TDB units (Default=false)" });
    rows.push(ParamRow { key: "NOTRACK", name: "NOTRACK", description: "Switch oﬀ tracking mode" });
    rows.push(ParamRow { key: "NO_SS_SHAPIRO", name: "NO_SS_SHAPIRO", description: "Switch oﬀ the calculation of the Solar system Shapiro delay" });
    rows.push(ParamRow { key: "IPM", name: "IPM", description: "Switch oﬀ calculation of the interplanetary medium" });
    rows.push(ParamRow { key: "DILATE_FREQ", name: "DILATE_FREQ", description: "Whether or not to apply gravitational redshift and time dilation to observing frequency" });
    rows.push(ParamRow { key: "PLANET_SHAPIRO", name: "PLANET_SHAPIRO", description: "Missing info" });
    rows.push(ParamRow { key: "CORRECT_TROPOSPHERE", name: "CORRECT_TROPOSPHERE", description: "Whether or not to apply tropospheric delay corrections" });
    rows.push(ParamRow { key: "DILATEFREQ", name: "DILATEFREQ", description: "Encountered in the wild" });
    rows
}

/// The two coordinates, which are kept apart from the other parameters.
pub open spec fn coord_rows() -> Seq<ParamRow> {
    seq![
        ParamRow { key: "RA", name: "RA", description: "J2000 right ascension" },
        ParamRow { key: "RAJ", name: "RA", description: "J2000 right ascension" },
        ParamRow { key: "DEC", name: "DEC", description: "J2000 declination" },
        ParamRow { key: "DECJ", name: "DEC", description: "J2000 declination" },
    ]
}

/// The two coordinates, which are kept apart from the other parameters.
pub fn coord_table() -> (rows: Vec<ParamRow>)
    ensures
        rows@ == coord_rows(),
{
    let mut rows: Vec<ParamRow> = Vec::new();
    rows.push(ParamRow { key: "RA", name: "RA", description: "J2000 right ascension" });
    rows.push(ParamRow { key: "RAJ", name: "RA", description: "J2000 right ascension" });
    rows.push(ParamRow { key: "DEC", name: "DEC", description: "J2000 declination" });
    rows.push(ParamRow { key: "DECJ", name: "DEC", description: "J2000 declination" });
    rows
}

} // verus!
