//! Session state shared by every screen: what the user chose, the INCAR
//! parameters, k-point mesh and submission settings.

use vstd::prelude::*;
use crate::config::Config;
use crate::incar::{IncarParams, IncarValue};
use crate::number::{decimal, push_decimal, parse_u32, parse_u32_spec};
use crate::text::push_char;

verus! {

/// Calculation types offered.
#[derive(Debug, Clone, Copy, PartialEq, Eq, Structural)]
pub enum CalcType {
    SinglePoint,
    GeometryOpt,
    Frequency,
    Bader,
    Pdos,
    ChargeDensity,
    Orbital,
    Tst,
}

/// Each calculation type loads its own preset: the presets are
/// `single_point`, `geometry_opt`, `frequency`, `bader`, `pdos`,
/// `charge_density`, `orbital` and `neb`, and no two types share one.
pub proof fn lemma_preset_names(a: CalcType, b: CalcType)
    ensures
        CalcType::SinglePoint.preset_name_spec() == "single_point"@,
        CalcType::GeometryOpt.preset_name_spec() == "geometry_opt"@,
        CalcType::Frequency.preset_name_spec() == "frequency"@,
        CalcType::Bader.preset_name_spec() == "bader"@,
        CalcType::Pdos.preset_name_spec() == "pdos"@,
        CalcType::ChargeDensity.preset_name_spec() == "charge_density"@,
        CalcType::Orbital.preset_name_spec() == "orbital"@,
        CalcType::Tst.preset_name_spec() == "neb"@,
        a.preset_name_spec() == b.preset_name_spec() ==> a == b,
{
    reveal_strlit("single_point");
    reveal_strlit("geometry_opt");
    reveal_strlit("frequency");
    reveal_strlit("bader");
    reveal_strlit("pdos");
    reveal_strlit("charge_density");
    reveal_strlit("orbital");
    reveal_strlit("neb");
    let x = a.preset_name_spec();
    let y = b.preset_name_spec();
    if x == y && a != b {
        assert(x.len() == y.len());
        assert(x[0] == y[0]);
        assert(x[1] == y[1]);
        assert(x[x.len() - 1] == y[y.len() - 1]);
    }
}

impl CalcType {
    pub open spec fn preset_name_spec(self) -> Seq<char> {
        match self {
            CalcType::SinglePoint => "single_point"@,
            CalcType::GeometryOpt => "geometry_opt"@,
            CalcType::Frequency => "frequency"@,
            CalcType::Bader => "bader"@,
            CalcType::Pdos => "pdos"@,
            CalcType::ChargeDensity => "charge_density"@,
            CalcType::Orbital => "orbital"@,
            CalcType::Tst => "neb"@,
        }
    }

    pub open spec fn display_name_spec(self) -> Seq<char> {
        match self {
            CalcType::SinglePoint => "Single Point"@,
            CalcType::GeometryOpt => "Geometry Optimization"@,
            CalcType::Frequency => "Frequency Calculation"@,
            CalcType::Bader => "Bader Charge"@,
            CalcType::Pdos => "PDOS"@,
            CalcType::ChargeDensity => "Charge Density"@,
            CalcType::Orbital => "Orbital"@,
            CalcType::Tst => "Transition State"@,
        }
    }

    pub open spec fn vasp_binary_spec(self) -> Seq<char> {
        match self {
            CalcType::Tst => "vasp_neb"@,
            _ => "vasp_std"@,
        }
    }

    /// Preset file name used by the backend (the TST preset is refined by
    /// the chosen [`TstMethod`]).
    pub fn preset_name(&self) -> (r: &'static str)
        ensures
            r@ == self.preset_name_spec(),
    {
        match self {
            CalcType::SinglePoint => "single_point",
            CalcType::GeometryOpt => "geometry_opt",
            CalcType::Frequency => "frequency",
            CalcType::Bader => "bader",
            CalcType::Pdos => "pdos",
            CalcType::ChargeDensity => "charge_density",
            CalcType::Orbital => "orbital",
            CalcType::Tst => "neb",
        }
    }

    /// Label shown in menus.
    pub fn display_name(&self) -> (r: &'static str)
        ensures
            r@ == self.display_name_spec(),
    {
        match self {
            CalcType::SinglePoint => "Single Point",
            CalcType::GeometryOpt => "Geometry Optimization",
            CalcType::Frequency => "Frequency Calculation",
            CalcType::Bader => "Bader Charge",
            CalcType::Pdos => "PDOS",
            CalcType::ChargeDensity => "Charge Density",
            CalcType::Orbital => "Orbital",
            CalcType::Tst => "Transition State",
        }
    }

    /// VASP executable for this calculation type.
    pub fn vasp_binary(&self) -> (r: &'static str)
        ensures
            r@ == self.vasp_binary_spec(),
    {
        match self {
            CalcType::Tst => "vasp_neb",
            _ => "vasp_std",
        }
    }

    pub open spec fn all_spec() -> Seq<CalcType> {
        seq![
            CalcType::SinglePoint,
            CalcType::GeometryOpt,
            CalcType::Frequency,
            CalcType::Bader,
            CalcType::Pdos,
            CalcType::ChargeDensity,
            CalcType::Orbital,
            CalcType::Tst,
        ]
    }

    /// All calculation types in display order.
    pub fn all() -> (r: Vec<CalcType>)
        ensures
            r@ == Self::all_spec(),
    {
        let r = vec![
            CalcType::SinglePoint,
            CalcType::GeometryOpt,
            CalcType::Frequency,
            CalcType::Bader,
            CalcType::Pdos,
            CalcType::ChargeDensity,
            CalcType::Orbital,
            CalcType::Tst,
        ];
        assert(r@ =~= Self::all_spec());
        r
    }
}

/// Transition-state methods.
#[derive(Debug, Clone, Copy, PartialEq, Eq, Structural)]
pub enum TstMethod {
    Neb,
    CiNeb,
    Dimer,
}

impl TstMethod {
    pub open spec fn preset_name_spec(self) -> Seq<char> {
        match self {
            TstMethod::Neb => "neb"@,
            TstMethod::CiNeb => "ci_neb"@,
            TstMethod::Dimer => "dimer"@,
        }
    }

    pub open spec fn display_name_spec(self) -> Seq<char> {
        match self {
            TstMethod::Neb => "NEB (Nudged Elastic Band)"@,
            TstMethod::CiNeb => "CI-NEB (Climbing Image NEB)"@,
            TstMethod::Dimer => "Dimer"@,
        }
    }

    pub open spec fn uses_images_spec(self) -> bool {
        match self {
            TstMethod::Neb | TstMethod::CiNeb => true,
            TstMethod::Dimer => false,
        }
    }

    /// Preset file name for this method.
    pub fn preset_name(&self) -> (r: &'static str)
        ensures
            r@ == self.preset_name_spec(),
    {
        match self {
            TstMethod::Neb => "neb",
            TstMethod::CiNeb => "ci_neb",
            TstMethod::Dimer => "dimer",
        }
    }

    /// Label shown in menus.
    pub fn display_name(&self) -> (r: &'static str)
        ensures
            r@ == self.display_name_spec(),
    {
        match self {
            TstMethod::Neb => "NEB (Nudged Elastic Band)",
            TstMethod::CiNeb => "CI-NEB (Climbing Image NEB)",
            TstMethod::Dimer => "Dimer",
        }
    }

    /// Whether the method runs over numbered image directories.
    pub fn uses_images(&self) -> (r: bool)
        ensures
            r == self.uses_images_spec(),
    {
        match self {
            TstMethod::Neb | TstMethod::CiNeb => true,
            TstMethod::Dimer => false,
        }
    }

    pub open spec fn all_spec() -> Seq<TstMethod> {
        seq![TstMethod::Neb, TstMethod::CiNeb, TstMethod::Dimer]
    }

    /// All methods in display order.
    pub fn all() -> (r: Vec<TstMethod>)
        ensures
            r@ == Self::all_spec(),
    {
        let r = vec![TstMethod::Neb, TstMethod::CiNeb, TstMethod::Dimer];
        assert(r@ =~= Self::all_spec());
        r
    }
}

/// Spin polarization.
#[derive(Debug, Clone, Copy, PartialEq, Eq, Structural)]
pub enum SpinMode {
    Restricted,
    Unrestricted,
}

/// The path chosen at the start.
#[derive(Debug, Clone, Copy, PartialEq, Eq, Structural)]
pub enum FlowPath {
    QuickSubmit,
    PerformCalculation,
}

/// A chemical species of the structure and how many atoms it has.
#[derive(Debug, Clone)]
pub struct SpeciesInfo {
    pub symbol: String,
    pub count: usize,
}

/// All session state; every screen reads and writes it.
#[derive(Debug)]
pub struct AppState {
    pub work_dir: String,
    pub files: Vec<String>,
    pub flow_path: Option<FlowPath>,
    pub calc_type: Option<CalcType>,
    pub tst_method: Option<TstMethod>,
    pub spin_mode: Option<SpinMode>,
    /// Indices into `files`.
    pub selected_files: Vec<usize>,
    pub species: Vec<SpeciesInfo>,
    /// One magnetic moment per species, as decimal text.
    pub magmom_per_species: Vec<String>,
    pub incar_params: IncarParams,
    pub kpoints: [u32; 3],
    pub current_step: u32,
    pub output_dir: String,
    pub job_names: Vec<String>,
    pub queue: String,
    pub cores: u32,
    /// VASP executable chosen by the user (quick submission only).
    pub vasp_binary_override: Option<String>,
    /// Message to show on the next INCAR screen.
    pub error: Option<String>,
}

/// `"{count}*{moment}"` for each species, as many parts as the shorter of
/// the two lists.
pub open spec fn magmom_parts(sp: Seq<SpeciesInfo>, mags: Seq<String>) -> Seq<Seq<char>> {
    let n = if sp.len() < mags.len() { sp.len() } else { mags.len() };
    Seq::new(n, |i: int| decimal(sp[i].count as nat) + seq!['*'] + mags[i]@)
}

/// Parts joined by single spaces.
pub open spec fn join_spaces(parts: Seq<Seq<char>>) -> Seq<char>
    decreases parts.len(),
{
    if parts.len() == 0 {
        seq![]
    } else if parts.len() == 1 {
        parts[0]
    } else {
        join_spaces(parts.drop_last()) + seq![' '] + parts.last()
    }
}

/// Strings joined by single spaces.
pub fn join_with_spaces(parts: &Vec<String>) -> (r: String)
    ensures
        r@ == join_spaces(parts@.map_values(|p: String| p@)),
{
    let ghost ps = parts@.map_values(|p: String| p@);
    let mut out = String::new();
    let n = parts.len();
    for i in 0..n
        invariant
            n == parts@.len(),
            ps == parts@.map_values(|p: String| p@),
            out@ == join_spaces(ps.take(i as int)),
    {
        proof {
            let t = ps.take(i + 1);
            assert(t.drop_last() =~= ps.take(i as int));
            if i == 0 {
                assert(ps.take(0) =~= Seq::<Seq<char>>::empty());
            }
        }
        if i > 0 {
            push_char(&mut out, ' ');
        }
        out.append(parts[i].as_str());
        proof {
            if i == 0 {
                assert(out@ =~= ps.take(1)[0]);
            } else {
                assert(out@ =~= join_spaces(ps.take(i as int)) + seq![' '] + ps.take(i + 1).last());
            }
        }
    }
    assert(ps.take(n as int) =~= ps);
    out
}

/// Values of the names that read as `u32` directory numbers, in order.
pub open spec fn numbered(names: Seq<String>) -> Seq<u32> {
    names.filter(|n: String| is_numbered(n)).map_values(|n: String| number_of(n))
}

pub open spec fn is_numbered(n: String) -> bool {
    parse_u32_spec(n@) is Some
}

pub open spec fn number_of(n: String) -> u32 {
    parse_u32_spec(n@)->0
}

/// Every value below the count and no value twice: the values are exactly
/// `0, 1, ..., len - 1` in some order.
pub open spec fn contiguous_from_zero(nums: Seq<u32>) -> bool {
    &&& forall|i: int| 0 <= i < nums.len() ==> #[trigger] nums[i] < nums.len()
    &&& forall|i: int, j: int| 0 <= i < j < nums.len() ==> #[trigger] nums[i] != #[trigger] nums[j]
}

/// Number of NEB images given the names of the subdirectories: the numbered
/// directories must be `00`, `01`, ... without gaps, at least three of them,
/// and the two end points are not images.
pub open spec fn images_spec(names: Seq<String>) -> Option<u32> {
    let nums = numbered(names);
    if nums.len() >= 3 && contiguous_from_zero(nums) {
        Some((nums.len() - 2) as u32)
    } else {
        None
    }
}

impl AppState {
    pub open spec fn is_tst(self) -> bool {
        self.calc_type == Some(CalcType::Tst)
    }

    pub open spec fn effective_preset_spec(self) -> Seq<char> {
        if self.is_tst() && self.tst_method is Some {
            self.tst_method->0.preset_name_spec()
        } else {
            match self.calc_type {
                Some(ct) => ct.preset_name_spec(),
                None => "single_point"@,
            }
        }
    }

    pub open spec fn vasp_binary_spec(self) -> Seq<char> {
        match self.vasp_binary_override {
            Some(b) => b@,
            None => match self.calc_type {
                Some(ct) => ct.vasp_binary_spec(),
                None => "vasp_std"@,
            },
        }
    }

    pub open spec fn magmom_spec(self) -> Option<Seq<char>> {
        if self.magmom_per_species@.len() == 0 || self.species@.len() == 0 {
            None
        } else {
            Some(join_spaces(magmom_parts(self.species@, self.magmom_per_species@)))
        }
    }

    /// Number of steps of the chosen path, counting the optional screens
    /// that the choices so far call for.
    pub open spec fn total_steps_spec(self) -> u32 {
        match self.flow_path {
            Some(FlowPath::QuickSubmit) => 1,
            Some(FlowPath::PerformCalculation) => {
                let magmom: u32 = if self.spin_mode == Some(SpinMode::Unrestricted) { 1 } else { 0 };
                let tst: u32 = if self.is_tst() { 1 } else { 0 };
                let skip: u32 = if self.is_tst() { 2 } else { 0 };
                (6 + magmom + tst - skip) as u32
            },
            None => 0,
        }
    }

    /// A fresh session over the files of `work_dir`, with queue and cores
    /// taken from the settings.
    pub fn new(work_dir: String, files: Vec<String>, config: &Config) -> (r: Self)
        ensures
            r.work_dir == work_dir,
            r.files == files,
            r.flow_path is None,
            r.calc_type is None,
            r.tst_method is None,
            r.spin_mode is None,
            r.selected_files@.len() == 0,
            r.species@.len() == 0,
            r.magmom_per_species@.len() == 0,
            r.incar_params.entries().len() == 0,
            r.kpoints@ == seq![1u32, 1u32, 1u32],
            r.current_step == 0,
            r.output_dir@.len() == 0,
            r.job_names@.len() == 0,
            r.queue@ == config.cluster.default_queue@,
            r.cores == config.cluster.default_cores,
            r.vasp_binary_override is None,
            r.error is None,
    {
        let r = AppState {
            work_dir,
            files,
            flow_path: None,
            calc_type: None,
            tst_method: None,
            spin_mode: None,
            selected_files: Vec::new(),
            species: Vec::new(),
            magmom_per_species: Vec::new(),
            incar_params: IncarParams::new(),
            kpoints: [1, 1, 1],
            current_step: 0,
            output_dir: String::new(),
            job_names: Vec::new(),
            queue: config.cluster.default_queue.clone(),
            cores: config.cluster.default_cores,
            vasp_binary_override: None,
            error: None,
        };
        assert(r.kpoints@ =~= seq![1u32, 1u32, 1u32]);
        r
    }

    /// Whether the chosen calculation is a transition-state search.
    pub fn is_tst_flow(&self) -> (r: bool)
        ensures
            r == self.is_tst(),
    {
        matches!(self.calc_type, Some(CalcType::Tst))
    }

    /// Preset to load: the TST method's when one is chosen for a TST
    /// calculation, else the calculation type's, else single point.
    pub fn effective_preset_name(&self) -> (r: &'static str)
        ensures
            r@ == self.effective_preset_spec(),
    {
        if self.is_tst_flow() {
            if let Some(m) = &self.tst_method {
                return m.preset_name();
            }
        }
        match &self.calc_type {
            Some(ct) => ct.preset_name(),
            None => "single_point",
        }
    }

    /// VASP executable: the user's choice when set, else the calculation
    /// type's.
    pub fn vasp_binary(&self) -> (r: &str)
        ensures
            r@ == self.vasp_binary_spec(),
    {
        match &self.vasp_binary_override {
            Some(b) => b.as_str(),
            None => match &self.calc_type {
                Some(ct) => ct.vasp_binary(),
                None => "vasp_std",
            },
        }
    }

    /// MAGMOM in VASP notation (`"2*5 3*0.6"`), or `None` without species or
    /// moments.
    pub fn magmom_string(&self) -> (r: Option<String>)
        ensures
            r is Some == self.magmom_spec() is Some,
            r is Some ==> r->0@ == self.magmom_spec()->0,
    {
        if self.magmom_per_species.len() == 0 || self.species.len() == 0 {
            return None;
        }
        let n = if self.species.len() < self.magmom_per_species.len() {
            self.species.len()
        } else {
            self.magmom_per_species.len()
        };
        let ghost want = magmom_parts(self.species@, self.magmom_per_species@);
        let mut parts: Vec<String> = Vec::new();
        for i in 0..n
            invariant
                n == want.len(),
                n <= self.species@.len(),
                n <= self.magmom_per_species@.len(),
                want == magmom_parts(self.species@, self.magmom_per_species@),
                parts@.len() == i,
                forall|j: int| 0 <= j < i ==> #[trigger] parts@[j]@ == want[j],
        {
            let mut p = String::new();
            push_decimal(&mut p, self.species[i].count as u64);
            push_char(&mut p, '*');
            p.append(self.magmom_per_species[i].as_str());
            assert(p@ =~= want[i as int]);
            parts.push(p);
        }
        assert(parts@.map_values(|p: String| p@) =~= want);
        Some(join_with_spaces(&parts))
    }

    /// Number of NEB images from the names of the work directory's
    /// subdirectories (see [`images_spec`]).
    pub fn detect_images(subdir_names: &Vec<String>) -> (r: Option<u32>)
        ensures
            r == images_spec(subdir_names@),
    {
        let mut nums: Vec<u32> = Vec::new();
        let n = subdir_names.len();
        for i in 0..n
            invariant
                n == subdir_names@.len(),
                nums@ == subdir_names@.take(i as int).filter(|n: String| is_numbered(n)).map_values(|n: String| number_of(n)),
        {
            proof {
                reveal_with_fuel(Seq::<_>::filter, 1);
                assert(subdir_names@.take(i + 1).drop_last() =~= subdir_names@.take(i as int));
            }
            let ghost t = subdir_names@.take(i + 1);
            assert(t.last() == subdir_names@[i as int]);
            assert(t.filter(|n: String| is_numbered(n)) == if is_numbered(t.last()) {
                t.drop_last().filter(|n: String| is_numbered(n)).push(t.last())
            } else {
                t.drop_last().filter(|n: String| is_numbered(n))
            });
            let parsed = parse_u32(subdir_names[i].as_str());
            assert(parsed == parse_u32_spec(subdir_names@[i as int]@));
            match parsed {
                Some(v) => {
                    assert(parse_u32_spec(t.last()@) == Some(v));
                    assert(number_of(t.last()) == v);
                    assert(t.drop_last().filter(|n: String| is_numbered(n)).push(t.last()).map_values(|n: String| number_of(n)) =~= t.drop_last().filter(|n: String| is_numbered(n)).map_values(|n: String| number_of(n)).push(v));
                    nums.push(v);
                    assert(nums@ =~= subdir_names@.take(i + 1).filter(|n: String| is_numbered(n)).map_values(|n: String| number_of(n)));
                },
                None => {
                    assert(nums@ =~= subdir_names@.take(i + 1).filter(|n: String| is_numbered(n)).map_values(|n: String| number_of(n)));
                },
            }
        }
        assert(subdir_names@.take(n as int) =~= subdir_names@);
        let ghost ns = nums@;
        assert(ns == numbered(subdir_names@));
        let count = nums.len();
        if count < 3 {
            return None;
        }
        let mut seen: Vec<bool> = Vec::new();
        for k in 0..count
            invariant
                seen@.len() == k,
                forall|j: int| 0 <= j < k ==> !(#[trigger] seen@[j]),
        {
            seen.push(false);
        }
        for i in 0..count
            invariant
                count == ns.len() == nums@.len(),
                ns == nums@,
                ns == numbered(subdir_names@),
                count >= 3,
                seen@.len() == count,
                forall|j: int| 0 <= j < i ==> (#[trigger] ns[j]) < count,
                forall|a: int, b: int| 0 <= a < b < i ==> #[trigger] ns[a] != #[trigger] ns[b],
                forall|v: int| 0 <= v < count ==> (#[trigger] seen@[v] <==> exists|j: int| 0 <= j < i && ns[j] == v),
        {
            let v = nums[i];
            assert(ns[i as int] == v);
            if v as usize >= count {
                assert(!contiguous_from_zero(ns));
                return None;
            }
            if seen[v as usize] {
                proof {
                    let j = choose|j: int| 0 <= j < i && ns[j] == v;
                    assert(ns[j] == ns[i as int]);
                    assert(!contiguous_from_zero(ns));
                }
                return None;
            }
            seen.set(v as usize, true);
            proof {
                assert forall|a: int, b: int| 0 <= a < b < i + 1 implies #[trigger] ns[a] != #[trigger] ns[b] by {
                    if b == i {
                        if ns[a] == ns[b] {
                            assert(seen@[v as int]);
                        }
                    }
                }
            }
        }
        Some((count - 2) as u32)
    }

    /// Steps of the chosen path (see [`AppState::total_steps_spec`]).
    pub fn total_steps(&self) -> (r: u32)
        ensures
            r == self.total_steps_spec(),
    {
        match self.flow_path {
            Some(FlowPath::QuickSubmit) => 1,
            Some(FlowPath::PerformCalculation) => {
                let magmom: u32 = if matches!(self.spin_mode, Some(SpinMode::Unrestricted)) {
                    1
                } else {
                    0
                };
                let tst: u32 = if self.is_tst_flow() { 1 } else { 0 };
                let skip: u32 = if self.is_tst_flow() { 2 } else { 0 };
                6 + magmom + tst - skip
            },
            None => 0,
        }
    }
}

} // verus!
