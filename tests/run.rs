use las_bounds::config::{OutputMode, RunConfig};
use las_bounds::error::LasBoundsError;
use las_bounds::run::{field_names, layer_name, Action, Outcome, Run, Stage};

fn strings(v: &[&str]) -> Vec<String> {
    v.iter().map(|s| s.to_string()).collect()
}

fn aggregate(epsg: Option<u32>, dump_text: bool) -> RunConfig {
    RunConfig { mode: OutputMode::Aggregate, epsg, dump_text }
}

/// Runs to the end with every action succeeding, and returns the actions.
fn run_all(run: &mut Run) -> Vec<Action> {
    let mut out = Vec::new();
    while !run.is_over() {
        out.push(run.step(Outcome::Done));
    }
    out
}

#[test]
fn single_las_file_directory() {
    let entries = strings(&["a.las", "b.txt"]);
    let mut run = Run::new(aggregate(None, false), &entries);
    assert_eq!(run.files, strings(&["a.las"]));
    let actions = run_all(&mut run);
    assert_eq!(
        actions,
        vec![
            Action::CreateDataset(None),
            Action::CreateLayer,
            Action::ReadBounds(0),
            Action::AddFeature(0),
            Action::Finish,
        ]
    );
    assert_eq!(run.attributes(0, "dir/a.las"), strings(&["a.las", "dir/a.las"]));
    assert_eq!(field_names(&OutputMode::Aggregate), strings(&["name", "path"]));
    assert_eq!(layer_name(), "bounds");
}

#[test]
fn single_las_file_per_file_layout() {
    let entries = strings(&["a.las", "b.txt"]);
    let cfg = RunConfig { mode: OutputMode::PerFile { label: "BBOX".to_string() }, epsg: None, dump_text: false };
    let mut run = Run::new(cfg, &entries);
    let actions = run_all(&mut run);
    assert_eq!(
        actions,
        vec![
            Action::ReadBounds(0),
            Action::CreateDataset(Some(0)),
            Action::CreateLayer,
            Action::AddFeature(0),
            Action::Finish,
        ]
    );
    assert_eq!(run.output_name(0, "shp"), "a.shp");
    assert_eq!(run.attributes(0, "dir/a.las"), strings(&["BBOX"]));
    assert_eq!(field_names(&run.config.mode), strings(&["Name"]));
}

#[test]
fn three_files_in_listing_order() {
    let entries = strings(&["c.las", "x.txt", "a.las", "b.las"]);
    let mut run = Run::new(aggregate(None, false), &entries);
    let actions = run_all(&mut run);
    let added: Vec<usize> = actions
        .iter()
        .filter_map(|a| if let Action::AddFeature(i) = a { Some(*i) } else { None })
        .collect();
    assert_eq!(added, vec![0, 1, 2]);
    assert_eq!(run.file_name(0), "c.las");
    assert_eq!(run.file_name(1), "a.las");
    assert_eq!(run.file_name(2), "b.las");
    assert_eq!(actions.len(), 2 * 3 + 3);
}

#[test]
fn empty_directory_gives_empty_layer() {
    let entries = strings(&["readme.txt"]);
    let mut run = Run::new(aggregate(None, false), &entries);
    assert!(run.files.is_empty());
    let actions = run_all(&mut run);
    assert_eq!(actions, vec![Action::CreateDataset(None), Action::CreateLayer, Action::Finish]);
    assert_eq!(run.stage, Stage::Finished);
}

#[test]
fn bad_epsg_aborts_before_any_output() {
    let entries = strings(&["a.las"]);
    let mut run = Run::new(aggregate(Some(999999), false), &entries);
    assert_eq!(run.step(Outcome::Done), Action::ResolveSrs(999999));
    let e = LasBoundsError::GdalError("unknown EPSG".to_string());
    assert_eq!(run.step(Outcome::Failed(e.clone())), Action::Abort(e));
    assert!(run.is_over());
    assert_eq!(run.stage, Stage::Aborted);
}

#[test]
fn failed_read_stops_the_run() {
    let entries = strings(&["a.las", "b.las"]);
    let mut run = Run::new(aggregate(None, false), &entries);
    assert_eq!(run.step(Outcome::Done), Action::CreateDataset(None));
    assert_eq!(run.step(Outcome::Done), Action::CreateLayer);
    assert_eq!(run.step(Outcome::Done), Action::ReadBounds(0));
    let e = LasBoundsError::LASError("bad header".to_string());
    assert_eq!(run.step(Outcome::Failed(e.clone())), Action::Abort(e));
    assert!(run.is_over());
}

#[test]
fn dumps_follow_each_feature() {
    let entries = strings(&["a.las", "b.las"]);
    let mut run = Run::new(aggregate(Some(2180), true), &entries);
    let actions = run_all(&mut run);
    assert_eq!(
        actions,
        vec![
            Action::ResolveSrs(2180),
            Action::CreateDataset(None),
            Action::CreateLayer,
            Action::ReadBounds(0),
            Action::AddFeature(0),
            Action::WriteDump(0),
            Action::ReadBounds(1),
            Action::AddFeature(1),
            Action::WriteDump(1),
            Action::Finish,
        ]
    );
    assert_eq!(run.output_name(1, "txt"), "b.txt");
}

#[test]
fn repeated_runs_give_same_attributes() {
    let entries = strings(&["a.las", "b.las", "c.txt"]);
    let collect = || {
        let mut run = Run::new(aggregate(None, false), &entries);
        let actions = run_all(&mut run);
        actions
            .iter()
            .filter_map(|a| if let Action::AddFeature(i) = a { Some(run.attributes(*i, &format!("d/{}", run.file_name(*i)))) } else { None })
            .collect::<Vec<_>>()
    };
    let first = collect();
    let second = collect();
    assert_eq!(first, second);
    assert_eq!(first, vec![strings(&["a.las", "d/a.las"]), strings(&["b.las", "d/b.las"])]);
}
