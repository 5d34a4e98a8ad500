//! The decisions of a run, as a state machine. The caller performs each
//! action that `step` returns (resolve the spatial reference, create the
//! dataset and its layer, read a header, add a feature, write a dump) and
//! hands back how it went; the first failure ends the run.
use vstd::prelude::*;
use crate::config::{OutputMode, RunConfig};
use crate::error::LasBoundsError;
use crate::names::{is_las_name, with_extension, with_extension_of};
use crate::scan::{las_names, lemma_list_las_order_independent, list_las, texts};

verus! {

/// Where a run stands. An index is the position of a LAS file in the run's list.
#[derive(Debug, Clone, Copy, PartialEq, Eq)]
pub enum Stage {
    Start,
    ResolvingSrs,
    /// Creating the directory's dataset (`None`) or the dataset of one file.
    CreatingDataset(Option<usize>),
    /// Creating the layer of the dataset that `CreatingDataset` names.
    CreatingLayer(Option<usize>),
    Reading(usize),
    Adding(usize),
    Dumping(usize),
    Finished,
    Aborted,
}

/// What the caller is to do next.
#[derive(Debug, PartialEq, Eq)]
pub enum Action {
    /// Resolve the EPSG code to a coordinate system.
    ResolveSrs(u32),
    /// Create the directory's shapefile (`None`) or that of the file at the index.
    CreateDataset(Option<usize>),
    /// Create the polygon layer `bounds`, with the fields of the layout, in
    /// the dataset just created.
    CreateLayer,
    /// Read the bounds from the header of the file at the index.
    ReadBounds(usize),
    /// Add the polygon of the file's bounds, with its attributes, to the layer.
    AddFeature(usize),
    /// Write the text dump of the file's bounds.
    WriteDump(usize),
    /// The run is complete.
    Finish,
    /// The run stops on this error; what was written stays.
    Abort(LasBoundsError),
}

/// How the last action went.
#[derive(Debug)]
pub enum Outcome {
    Done,
    Failed(LasBoundsError),
}

/// A run over the LAS files of one directory.
pub struct Run {
    pub config: RunConfig,
    /// The names of the LAS files, in the order of the listing.
    pub files: Vec<String>,
    pub stage: Stage,
}

/// Whether the stage ends the run.
pub open spec fn is_terminal(stage: Stage) -> bool {
    stage is Finished || stage is Aborted
}

/// Whether every index that the stage holds is that of one of `n` files.
pub open spec fn stage_fits(stage: Stage, n: nat) -> bool {
    match stage {
        Stage::CreatingDataset(Some(i)) => i < n,
        Stage::CreatingLayer(Some(i)) => i < n,
        Stage::Reading(i) => i < n,
        Stage::Adding(i) => i < n,
        Stage::Dumping(i) => i < n,
        _ => true,
    }
}

/// Turning to the file at index `i` of `n`: read it, or finish after the last.
pub open spec fn file_turn(n: nat, i: nat) -> (Stage, Action) {
    if i < n {
        (Stage::Reading(i as usize), Action::ReadBounds(i as usize))
    } else {
        (Stage::Finished, Action::Finish)
    }
}

/// What comes once the spatial reference is settled: the directory's dataset,
/// or in the per-file layout the first file.
pub open spec fn after_srs(mode: OutputMode, n: nat) -> (Stage, Action) {
    match mode {
        OutputMode::Aggregate => (Stage::CreatingDataset(None), Action::CreateDataset(None)),
        OutputMode::PerFile { .. } => file_turn(n, 0),
    }
}

/// The next stage and action of a run with settings `cfg` over `n` files, at
/// `stage`, after `outcome`.
pub open spec fn next_of(cfg: RunConfig, n: nat, stage: Stage, outcome: Outcome) -> (
    Stage,
    Action,
) {
    match outcome {
        Outcome::Failed(e) => (Stage::Aborted, Action::Abort(e)),
        Outcome::Done => match stage {
            Stage::Start => match cfg.epsg {
                Some(c) => (Stage::ResolvingSrs, Action::ResolveSrs(c)),
                None => after_srs(cfg.mode, n),
            },
            Stage::ResolvingSrs => after_srs(cfg.mode, n),
            Stage::CreatingDataset(d) => (Stage::CreatingLayer(d), Action::CreateLayer),
            Stage::CreatingLayer(d) => match d {
                Some(i) => (Stage::Adding(i), Action::AddFeature(i)),
                None => file_turn(n, 0),
            },
            Stage::Reading(i) => match cfg.mode {
                OutputMode::Aggregate => (Stage::Adding(i), Action::AddFeature(i)),
                OutputMode::PerFile { .. } => (
                    Stage::CreatingDataset(Some(i)),
                    Action::CreateDataset(Some(i)),
                ),
            },
            Stage::Adding(i) => if cfg.dump_text {
                (Stage::Dumping(i), Action::WriteDump(i))
            } else {
                file_turn(n, (i + 1) as nat)
            },
            Stage::Dumping(i) => file_turn(n, (i + 1) as nat),
            Stage::Finished => (Stage::Finished, Action::Finish),
            Stage::Aborted => (Stage::Aborted, Action::Finish),
        },
    }
}

/// The names of the fields of a layout's layer.
pub open spec fn field_names_of(mode: OutputMode) -> Seq<Seq<char>> {
    match mode {
        OutputMode::Aggregate => seq!["name"@, "path"@],
        OutputMode::PerFile { .. } => seq!["Name"@],
    }
}

/// The attribute values of the feature of the file `name` at `path`, one per field.
pub open spec fn attributes_of(mode: OutputMode, name: Seq<char>, path: Seq<char>) -> Seq<
    Seq<char>,
> {
    match mode {
        OutputMode::Aggregate => seq![name, path],
        OutputMode::PerFile { label } => seq![label@],
    }
}

/// The name of the layer that holds the features.
pub fn layer_name() -> (r: String)
    ensures
        r@ == "bounds"@,
{
    String::from_str("bounds")
}

/// The names of the fields of the layer, in the layout of `mode`: `name` and
/// `path`, or `Name` alone.
pub fn field_names(mode: &OutputMode) -> (r: Vec<String>)
    ensures
        texts(r@) == field_names_of(*mode),
{
    let mut r: Vec<String> = Vec::new();
    match mode {
        OutputMode::Aggregate => {
            r.push(String::from_str("name"));
            r.push(String::from_str("path"));
        },
        OutputMode::PerFile { .. } => {
            r.push(String::from_str("Name"));
        },
    }
    assert(texts(r@) =~= field_names_of(*mode));
    r
}

/// The attribute values of the feature of the file `name` at `path`, in the
/// order of `field_names`: the name and the path, or the layout's label.
pub fn feature_attributes(mode: &OutputMode, name: &str, path: &str) -> (r: Vec<String>)
    ensures
        texts(r@) == attributes_of(*mode, name@, path@),
{
    let mut r: Vec<String> = Vec::new();
    match mode {
        OutputMode::Aggregate => {
            r.push(String::from_str(name));
            r.push(String::from_str(path));
        },
        OutputMode::PerFile { label } => {
            r.push(label.clone());
        },
    }
    assert(texts(r@) =~= attributes_of(*mode, name@, path@));
    r
}

/// The actions of a run from `stage` when each of the next `k` actions succeeds.
pub open spec fn trace(cfg: RunConfig, n: nat, stage: Stage, k: nat) -> Seq<Action>
    decreases k,
{
    if k == 0 || is_terminal(stage) {
        seq![]
    } else {
        let (next, action) = next_of(cfg, n, stage, Outcome::Done);
        seq![action] + trace(cfg, n, next, (k - 1) as nat)
    }
}

/// Each file from index `i` on read and then added, in order, then the end.
pub open spec fn file_actions(i: nat, n: nat) -> Seq<Action>
    decreases n - i,
{
    if i < n {
        seq![Action::ReadBounds(i as usize), Action::AddFeature(i as usize)] + file_actions(
            i + 1,
            n,
        )
    } else {
        seq![Action::Finish]
    }
}

proof fn lemma_trace_from_reading(cfg: RunConfig, n: nat, i: nat)
    requires
        cfg.mode is Aggregate,
        !cfg.dump_text,
        i < n <= usize::MAX,
    ensures
        trace(cfg, n, Stage::Reading(i as usize), (2 * (n - i)) as nat) == seq![
            Action::AddFeature(i as usize),
        ] + file_actions(i + 1, n),
    decreases n - i,
{
    let k = (2 * (n - i)) as nat;
    assert(trace(cfg, n, Stage::Reading(i as usize), k) == seq![Action::AddFeature(i as usize)]
        + trace(cfg, n, Stage::Adding(i as usize), (k - 1) as nat));
    if i + 1 < n {
        lemma_trace_from_reading(cfg, n, i + 1);
        assert(trace(cfg, n, Stage::Adding(i as usize), (k - 1) as nat) == seq![
            Action::ReadBounds((i + 1) as usize),
        ] + trace(cfg, n, Stage::Reading((i + 1) as usize), (k - 2) as nat));
        assert(file_actions(i + 1, n) =~= seq![Action::ReadBounds((i + 1) as usize)] + (seq![
            Action::AddFeature((i + 1) as usize),
        ] + file_actions(i + 2, n)));
    } else {
        assert(trace(cfg, n, Stage::Finished, (k - 2) as nat) == Seq::<Action>::empty());
        assert(trace(cfg, n, Stage::Adding(i as usize), (k - 1) as nat) =~= seq![Action::Finish]);
    }
    assert(trace(cfg, n, Stage::Reading(i as usize), k) =~= seq![Action::AddFeature(i as usize)]
        + file_actions(i + 1, n));
}

/// A run in the directory layout with no EPSG code and no dumps, over `n`
/// files, where every action succeeds: it creates the dataset and its layer,
/// then reads each file and adds its feature, in the listing's order and once
/// each, then finishes. Over no file at all it adds no feature and finishes
/// without error.
pub proof fn lemma_directory_run_in_order(cfg: RunConfig, n: nat)
    requires
        cfg.mode is Aggregate,
        cfg.epsg is None,
        !cfg.dump_text,
        n <= usize::MAX,
    ensures
        trace(cfg, n, Stage::Start, 2 * n + 3) == seq![
            Action::CreateDataset(None),
            Action::CreateLayer,
        ] + file_actions(0, n),
        n == 0 ==> trace(cfg, n, Stage::Start, 3) == seq![
            Action::CreateDataset(None),
            Action::CreateLayer,
            Action::Finish,
        ],
{
    let k = 2 * n + 3;
    let layer = trace(cfg, n, Stage::CreatingLayer(None), (k - 2) as nat);
    assert(trace(cfg, n, Stage::Start, k) == seq![Action::CreateDataset(None)] + trace(
        cfg,
        n,
        Stage::CreatingDataset(None),
        (k - 1) as nat,
    ));
    assert(trace(cfg, n, Stage::CreatingDataset(None), (k - 1) as nat) == seq![
        Action::CreateLayer,
    ] + layer);
    if n > 0 {
        lemma_trace_from_reading(cfg, n, 0);
        assert(layer == seq![Action::ReadBounds(0)] + trace(
            cfg,
            n,
            Stage::Reading(0),
            (k - 3) as nat,
        ));
        assert(file_actions(0, n) =~= seq![Action::ReadBounds(0)] + (seq![Action::AddFeature(0)]
            + file_actions(1, n)));
        assert(layer =~= file_actions(0, n));
    } else {
        assert(trace(cfg, n, Stage::Finished, (k - 3) as nat) == Seq::<Action>::empty());
        assert(layer =~= seq![Action::Finish]);
        assert(file_actions(0, n) == seq![Action::Finish]);
    }
    assert(trace(cfg, n, Stage::Start, k) =~= seq![Action::CreateDataset(None), Action::CreateLayer]
        + file_actions(0, n));
}

/// A listing without LAS files gives a run over no file: in the directory
/// layout the dataset and its layer are still created, no feature is added,
/// and the run finishes without error.
pub proof fn lemma_no_las_files_no_features(cfg: RunConfig, entries: Seq<Seq<char>>)
    requires
        cfg.mode is Aggregate,
        forall|i: int| 0 <= i < entries.len() ==> !is_las_name(#[trigger] entries[i]),
    ensures
        las_names(entries).len() == 0,
        cfg.epsg is None ==> next_of(cfg, 0, Stage::Start, Outcome::Done) == (
            Stage::CreatingDataset(None),
            Action::CreateDataset(None),
        ),
        next_of(cfg, 0, Stage::ResolvingSrs, Outcome::Done) == (
            Stage::CreatingDataset(None),
            Action::CreateDataset(None),
        ),
        next_of(cfg, 0, Stage::CreatingDataset(None), Outcome::Done) == (
            Stage::CreatingLayer(None),
            Action::CreateLayer,
        ),
        next_of(cfg, 0, Stage::CreatingLayer(None), Outcome::Done) == (
            Stage::Finished,
            Action::Finish,
        ),
{
    let pred = |n: Seq<char>| is_las_name(n);
    assert(entries.all(|x: Seq<char>| !pred(x)));
    entries.lemma_all_neg_filter_empty(pred);
}

/// Where an EPSG code is set, resolving it is the first action of a run,
/// before any dataset is created; where that fails, the run stops right
/// there with the error, and nothing is created.
pub proof fn lemma_bad_srs_aborts_first(cfg: RunConfig, n: nat, e: LasBoundsError)
    requires
        cfg.epsg is Some,
    ensures
        next_of(cfg, n, Stage::Start, Outcome::Done) == (
            Stage::ResolvingSrs,
            Action::ResolveSrs(cfg.epsg->0),
        ),
        next_of(cfg, n, Stage::ResolvingSrs, Outcome::Failed(e)) == (
            Stage::Aborted,
            Action::Abort(e),
        ),
        is_terminal(Stage::Aborted),
{
}

/// Two runs over listings of the same entries, in whatever order, give the
/// same attribute records: the same files are processed, and each record
/// depends on the layout, the file's name and its path alone.
pub proof fn lemma_attributes_repeatable(
    mode: OutputMode,
    a: Seq<Seq<char>>,
    b: Seq<Seq<char>>,
    path_of: spec_fn(Seq<char>) -> Seq<char>,
)
    requires
        a.to_multiset() == b.to_multiset(),
    ensures
        las_names(a).map_values(|n: Seq<char>| attributes_of(mode, n, path_of(n))).to_set()
            == las_names(b).map_values(|n: Seq<char>| attributes_of(mode, n, path_of(n))).to_set(),
{
    broadcast use vstd::seq_lib::group_to_multiset_ensures;

    let f = |n: Seq<char>| attributes_of(mode, n, path_of(n));
    lemma_list_las_order_independent(a, b);
    let la = las_names(a);
    let lb = las_names(b);
    assert forall|x: Seq<char>| la.to_set().contains(x) <==> lb.to_set().contains(x) by {
        assert(la.contains(x) <==> la.to_multiset().count(x) > 0);
        assert(lb.contains(x) <==> lb.to_multiset().count(x) > 0);
    }
    assert(la.to_set() =~= lb.to_set());
    la.lemma_to_set_map_commutes(f);
    lb.lemma_to_set_map_commutes(f);
}

impl Run {
    /// Whether the stage holds only indices of the run's files.
    pub open spec fn wf(&self) -> bool {
        stage_fits(self.stage, self.files@.len())
    }

    /// A run that has not started, over the LAS files among the entries of a
    /// directory listing.
    pub fn new(config: RunConfig, entries: &Vec<String>) -> (r: Run)
        ensures
            r.wf(),
            r.config == config,
            texts(r.files@) == las_names(texts(entries@)),
            r.stage == Stage::Start,
    {
        Run { config, files: list_las(entries), stage: Stage::Start }
    }

    /// Whether the run has finished or stopped.
    pub fn is_over(&self) -> (r: bool)
        ensures
            r == is_terminal(self.stage),
    {
        match self.stage {
            Stage::Finished | Stage::Aborted => true,
            _ => false,
        }
    }

    /// Turning to the file at index `i`.
    fn turn_to(&self, i: usize) -> (r: (Stage, Action))
        requires
            i <= self.files@.len(),
        ensures
            r == file_turn(self.files@.len(), i as nat),
    {
        if i < self.files.len() {
            (Stage::Reading(i), Action::ReadBounds(i))
        } else {
            (Stage::Finished, Action::Finish)
        }
    }

    /// Turning to the file after the one at index `i`.
    fn turn_after(&self, i: usize) -> (r: (Stage, Action))
        requires
            i < self.files@.len(),
        ensures
            r == file_turn(self.files@.len(), (i + 1) as nat),
    {
        if i < self.files.len() - 1 {
            (Stage::Reading(i + 1), Action::ReadBounds(i + 1))
        } else {
            (Stage::Finished, Action::Finish)
        }
    }

    /// What comes once the spatial reference is settled.
    fn settled(&self) -> (r: (Stage, Action))
        ensures
            r == after_srs(self.config.mode, self.files@.len()),
    {
        match self.config.mode {
            OutputMode::Aggregate => (Stage::CreatingDataset(None), Action::CreateDataset(None)),
            OutputMode::PerFile { .. } => self.turn_to(0),
        }
    }

    /// Takes how the last action went and returns the next one. A failure
    /// ends the run with that error; otherwise the run goes on in its order:
    /// the spatial reference first (where an EPSG code is set), then the
    /// dataset and layer of the directory and each file in the listing's
    /// order, or per file its header, dataset, layer and feature; each
    /// feature followed by the file's dump where dumps are asked for.
    pub fn step(&mut self, outcome: Outcome) -> (r: Action)
        requires
            old(self).wf(),
            !is_terminal(old(self).stage),
        ensures
            final(self).wf(),
            final(self).config == old(self).config,
            final(self).files == old(self).files,
            (final(self).stage, r) == next_of(
                old(self).config,
                old(self).files@.len(),
                old(self).stage,
                outcome,
            ),
    {
        let (stage, action) = match outcome {
            Outcome::Failed(e) => (Stage::Aborted, Action::Abort(e)),
            Outcome::Done => match self.stage {
                Stage::Start => match self.config.epsg {
                    Some(c) => (Stage::ResolvingSrs, Action::ResolveSrs(c)),
                    None => self.settled(),
                },
                Stage::ResolvingSrs => self.settled(),
                Stage::CreatingDataset(d) => (Stage::CreatingLayer(d), Action::CreateLayer),
                Stage::CreatingLayer(d) => match d {
                    Some(i) => (Stage::Adding(i), Action::AddFeature(i)),
                    None => self.turn_to(0),
                },
                Stage::Reading(i) => match self.config.mode {
                    OutputMode::Aggregate => (Stage::Adding(i), Action::AddFeature(i)),
                    OutputMode::PerFile { .. } => (
                        Stage::CreatingDataset(Some(i)),
                        Action::CreateDataset(Some(i)),
                    ),
                },
                Stage::Adding(i) => if self.config.dump_text {
                    (Stage::Dumping(i), Action::WriteDump(i))
                } else {
                    self.turn_after(i)
                },
                Stage::Dumping(i) => self.turn_after(i),
                Stage::Finished => (Stage::Finished, Action::Finish),
                Stage::Aborted => (Stage::Aborted, Action::Finish),
            },
        };
        self.stage = stage;
        action
    }

    /// The name of the file at index `i`.
    pub fn file_name(&self, i: usize) -> (r: &str)
        requires
            i < self.files@.len(),
        ensures
            r@ == self.files@[i as int]@,
    {
        self.files[i].as_str()
    }

    /// The name of an output of the file at index `i`: its name with the
    /// extension `ext` (`shp` for its shapefile, `txt` for its dump).
    pub fn output_name(&self, i: usize, ext: &str) -> (r: String)
        requires
            i < self.files@.len(),
        ensures
            r@ == with_extension_of(self.files@[i as int]@, ext@),
    {
        with_extension(self.files[i].as_str(), ext)
    }

    /// The attribute values of the feature of the file at index `i`, whose
    /// full path is `path`.
    pub fn attributes(&self, i: usize, path: &str) -> (r: Vec<String>)
        requires
            i < self.files@.len(),
        ensures
            texts(r@) == attributes_of(self.config.mode, self.files@[i as int]@, path@),
    {
        feature_attributes(&self.config.mode, self.files[i].as_str(), path)
    }
}

} // verus!
