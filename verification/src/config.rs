//! Configuration-search logic.
//!
//! The harness looks for configuration files by probing an ordered
//! list of directories for an ordered list of file names: within one
//! directory every candidate name is tried, in order of preference,
//! before the next directory is consulted.  Everything that decides
//! *where* to look and *in which order* is verified here: the
//! directory list with its override precedence, the component-specific
//! environment-variable name, path joining, the full probe order, and
//! the scan decision that accepts the first candidate that exists and
//! parses.  The probing itself (testing whether a file exists, opening
//! and parsing it) is plain I/O and stays with the embedding
//! executable, which feeds each probe's outcome back into the scan
//! decision.

use vstd::prelude::*;

verus! {

/// The uppercase mapping of a sequence of characters, as
/// `str::to_uppercase` computes it.
pub uninterp spec fn upper_of(s: Seq<char>) -> Seq<char>;

/// Relies on `str::to_uppercase`: the uppercase equivalent of the
/// string, a function of its characters alone.
#[verifier::external_body]
fn to_upper(s: &str) -> (upper: String)
    ensures
        upper@ == upper_of(s@),
{
    s.to_uppercase()
}

/// Relies on `String::push_str`: appends the characters of `suffix`.
#[verifier::external_body]
fn append_str(s: &mut String, suffix: &str)
    ensures
        final(s)@ == old(s)@ + suffix@,
{
    s.push_str(suffix)
}

/// Relies on `str::ends_with` with a `char` pattern: true exactly when
/// the string is non-empty and its last character is the separator.
#[verifier::external_body]
fn ends_with_separator(s: &str) -> (r: bool)
    ensures
        r == (s@.len() > 0 && s@[s@.len() - 1] == '/'),
{
    s.ends_with('/')
}

/// The environment variable consulted for a general
/// configuration-directory override.
pub fn config_dir_env() -> (name: String)
    ensures
        name@ == "CONSTELLATION_CONF_DIR"@,
{
    "CONSTELLATION_CONF_DIR".to_owned()
}

/// The system-wide configuration directory, consulted when no override
/// is set.
pub fn system_config_dir() -> (dir: String)
    ensures
        dir@ == "/usr/local/etc/constellation/"@,
{
    "/usr/local/etc/constellation/".to_owned()
}

/// The subdirectory under the home directory in which configurations
/// are stored.
pub fn home_config_subdir() -> (dir: String)
    ensures
        dir@ == ".config/constellation/"@,
{
    ".config/constellation/".to_owned()
}

/// The default list of logging-configuration file names.
pub fn default_log_config_files() -> (names: Vec<String>)
    ensures
        names@.len() == 1,
        names@[0]@ == "constellation-log.yaml"@,
{
    let mut names: Vec<String> = Vec::new();
    names.push("constellation-log.yaml".to_owned());
    names
}

/// The component-specific override variable: `CONSTELLATION_`, then the
/// upper-cased component name, then `_CONF_DIR`.
pub open spec fn spec_component_env_name(component: Seq<char>) -> Seq<char> {
    "CONSTELLATION_"@ + upper_of(component) + "_CONF_DIR"@
}

/// Name of the environment variable that overrides the configuration
/// directory for this component alone.
pub fn component_env_name(component: &str) -> (name: String)
    ensures
        name@ == spec_component_env_name(component@),
{
    let mut name = "CONSTELLATION_".to_owned();
    let upper = to_upper(component);
    append_str(&mut name, upper.as_str());
    append_str(&mut name, "_CONF_DIR");
    proof {
        assert(name@ =~= spec_component_env_name(component@));
    }
    name
}

/// A directory joined with a file name: a separator is inserted unless
/// the directory is empty or already ends with one.
pub open spec fn spec_join_path(dir: Seq<char>, file: Seq<char>) -> Seq<char> {
    if dir.len() == 0 {
        file
    } else if dir[dir.len() - 1] == '/' {
        dir + file
    } else {
        dir + seq!['/'] + file
    }
}

/// Join a directory and a file name into a path.
pub fn join_path(dir: &str, file: &str) -> (path: String)
    ensures
        path@ == spec_join_path(dir@, file@),
{
    if dir.is_empty() {
        return file.to_owned();
    }
    let mut path = dir.to_owned();
    if !ends_with_separator(dir) {
        append_str(&mut path, "/");
        proof {
            reveal_strlit("/");
            assert(("/")@ =~= seq!['/']);
        }
    }
    append_str(&mut path, file);
    proof {
        assert(path@ =~= spec_join_path(dir@, file@));
    }
    path
}

/// The directory list the harness searches: the home configuration
/// directory first when a home directory is known, then exactly one
/// more entry — the component-specific override if set, else the
/// general override if set, else the system-wide default.
pub open spec fn spec_config_dirs(
    home: Option<Seq<char>>,
    home_subdir: Seq<char>,
    component_override: Option<Seq<char>>,
    general_override: Option<Seq<char>>,
    system_dir: Seq<char>,
) -> Seq<Seq<char>> {
    let chosen = if component_override is Some {
        component_override.unwrap()
    } else if general_override is Some {
        general_override.unwrap()
    } else {
        system_dir
    };
    if home is Some {
        seq![spec_join_path(home.unwrap(), home_subdir), chosen]
    } else {
        seq![chosen]
    }
}

/// Compute the ordered list of configuration directories from the
/// resolved environment values.
pub fn config_dirs(
    home: Option<&str>,
    home_subdir: &str,
    component_override: Option<&str>,
    general_override: Option<&str>,
    system_dir: &str,
) -> (dirs: Vec<String>)
    ensures
        dirs@.map_values(|d: String| d@) == spec_config_dirs(
            match home {
                Some(h) => Some(h@),
                None => None,
            },
            home_subdir@,
            match component_override {
                Some(c) => Some(c@),
                None => None,
            },
            match general_override {
                Some(g) => Some(g@),
                None => None,
            },
            system_dir@,
        ),
{
    let mut dirs: Vec<String> = Vec::new();
    if let Some(h) = home {
        dirs.push(join_path(h, home_subdir));
    }
    if let Some(c) = component_override {
        dirs.push(c.to_owned());
    } else if let Some(g) = general_override {
        dirs.push(g.to_owned());
    } else {
        dirs.push(system_dir.to_owned());
    }
    proof {
        assert(dirs@.map_values(|d: String| d@) =~= spec_config_dirs(
            match home {
                Some(h) => Some(h@),
                None => None,
            },
            home_subdir@,
            match component_override {
                Some(c) => Some(c@),
                None => None,
            },
            match general_override {
                Some(g) => Some(g@),
                None => None,
            },
            system_dir@,
        ));
    }
    dirs
}

/// A grid index strictly below a completed row stays below the start
/// of that row.
proof fn lemma_grid_index_bound(row: int, col: int, rows: int, width: int)
    requires
        0 <= row < rows,
        0 <= col < width,
    ensures
        row * width + col < rows * width,
{
    assert(row * width + col < rows * width) by (nonlinear_arith)
        requires
            0 <= row < rows,
            0 <= col < width,
    ;
}

/// The probe order for configuration files: directories in order on
/// the outside, file names in order of preference on the inside, so
/// that every candidate name is tried in one directory before the next
/// directory is consulted.
pub fn candidate_paths(dirs: &Vec<String>, names: &Vec<String>) -> (paths: Vec<String>)
    ensures
        paths@.len() == dirs@.len() * names@.len(),
        forall|j: int, i: int|
            0 <= j < dirs@.len() && 0 <= i < names@.len() ==> (#[trigger] paths@[j * names@.len()
                + i])@ == spec_join_path(dirs@[j]@, names@[i]@),
{
    let ghost width = names@.len();
    let mut paths: Vec<String> = Vec::new();
    let mut j: usize = 0;
    while j < dirs.len()
        invariant
            0 <= j <= dirs@.len(),
            width == names@.len(),
            paths@.len() == j * width,
            forall|j2: int, i2: int|
                0 <= j2 < j && 0 <= i2 < width ==> (#[trigger] paths@[j2 * width + i2])@
                    == spec_join_path(dirs@[j2]@, names@[i2]@),
        decreases dirs@.len() - j,
    {
        let mut i: usize = 0;
        while i < names.len()
            invariant
                0 <= j < dirs@.len(),
                0 <= i <= width,
                width == names@.len(),
                paths@.len() == j * width + i,
                forall|j2: int, i2: int|
                    0 <= j2 < j && 0 <= i2 < width ==> (#[trigger] paths@[j2 * width + i2])@
                        == spec_join_path(dirs@[j2]@, names@[i2]@),
                forall|i2: int|
                    0 <= i2 < i ==> (#[trigger] paths@[j * width + i2])@ == spec_join_path(
                        dirs@[j as int]@,
                        names@[i2]@,
                    ),
            decreases width - i,
        {
            let path = join_path(dirs[j].as_str(), names[i].as_str());
            paths.push(path);
            proof {
                assert forall|j2: int, i2: int| 0 <= j2 < j && 0 <= i2 < width implies (
                #[trigger] paths@[j2 * width + i2])@ == spec_join_path(
                    dirs@[j2]@,
                    names@[i2]@,
                ) by {
                    lemma_grid_index_bound(j2, i2, j as int, width as int);
                }
            }
            i += 1;
        }
        proof {
            assert((j + 1) * width == j * width + width) by (nonlinear_arith);
        }
        j += 1;
    }
    paths
}

/// Outcome of probing one candidate path.
#[derive(Clone, Copy, PartialEq, Eq, Structural, Debug)]
pub enum ProbeOutcome {
    /// The file exists and parsed.
    Parsed,
    /// The file does not exist.
    Missing,
    /// The file exists but could not be read or parsed; the failure is
    /// logged and the scan continues.
    ParseError,
}

/// What the scan does after one probe.
#[derive(Clone, Copy, PartialEq, Eq, Structural, Debug)]
pub enum ScanDecision {
    /// Use the candidate just probed; no later candidate is read.
    Accept,
    /// Probe this candidate next.
    Next(usize),
    /// No candidate is left: no valid configuration was found.
    Exhausted,
}

/// The decision after probing candidate `index` of `total`: the first
/// candidate that exists and parses wins; a missing or unparseable one
/// is skipped and the scan moves on, never aborting early.
pub open spec fn spec_scan_decision(index: int, total: int, outcome: ProbeOutcome) -> ScanDecision {
    if outcome is Parsed {
        ScanDecision::Accept
    } else if index + 1 < total {
        ScanDecision::Next((index + 1) as usize)
    } else {
        ScanDecision::Exhausted
    }
}

/// One decision of the candidate scan.
pub fn scan_decision(index: usize, total: usize, outcome: ProbeOutcome) -> (decision:
    ScanDecision)
    requires
        index < total,
    ensures
        decision == spec_scan_decision(index as int, total as int, outcome),
{
    match outcome {
        ProbeOutcome::Parsed => ScanDecision::Accept,
        _ => {
            if index + 1 < total {
                ScanDecision::Next(index + 1)
            } else {
                ScanDecision::Exhausted
            }
        },
    }
}

/// Index of the first candidate that exists and parses, if any.
pub open spec fn spec_first_parsed(outcomes: Seq<ProbeOutcome>) -> Option<int>
    decreases outcomes.len(),
{
    if outcomes.len() == 0 {
        None
    } else if outcomes[0] is Parsed {
        Some(0int)
    } else {
        match spec_first_parsed(outcomes.drop_first()) {
            Some(i) => Some(i + 1),
            None => None,
        }
    }
}

/// The candidate the scan accepts when, starting at candidate `index`,
/// probing candidate `index + k` yields `outcomes[k]`; `None` when the
/// scan exhausts the list.
pub open spec fn spec_scan_run(index: int, total: int, outcomes: Seq<ProbeOutcome>) -> Option<int>
    decreases outcomes.len(),
{
    if outcomes.len() == 0 {
        None
    } else {
        match spec_scan_decision(index, total, outcomes[0]) {
            ScanDecision::Accept => Some(index),
            ScanDecision::Next(_) => spec_scan_run(index + 1, total, outcomes.drop_first()),
            ScanDecision::Exhausted => None,
        }
    }
}

/// Driven over the outcomes of all candidates, the scan accepts exactly
/// the first candidate that exists and parses, and reports exhaustion
/// exactly when there is none: a missing file or a parse error never
/// cuts the scan short.
pub proof fn lemma_scan_finds_first_parsed(outcomes: Seq<ProbeOutcome>)
    ensures
        spec_scan_run(0, outcomes.len() as int, outcomes) == spec_first_parsed(outcomes),
{
    lemma_scan_run_offset(0, outcomes.len() as int, outcomes);
}

/// Inductive core of [`lemma_scan_finds_first_parsed`], generalized
/// over the starting candidate.
proof fn lemma_scan_run_offset(index: int, total: int, outcomes: Seq<ProbeOutcome>)
    requires
        0 <= index,
        total == index + outcomes.len(),
    ensures
        spec_scan_run(index, total, outcomes) == match spec_first_parsed(outcomes) {
            Some(i) => Some(index + i),
            None => None::<int>,
        },
    decreases outcomes.len(),
{
    if outcomes.len() == 0 {
        assert(spec_scan_run(index, total, outcomes) is None);
        assert(spec_first_parsed(outcomes) is None);
    } else if outcomes[0] is Parsed {
        assert(spec_scan_decision(index, total, outcomes[0]) is Accept);
        assert(spec_scan_run(index, total, outcomes) == Some(index));
        assert(spec_first_parsed(outcomes) == Some(0int));
    } else if index + 1 < total {
        lemma_scan_run_offset(index + 1, total, outcomes.drop_first());
        assert(spec_scan_decision(index, total, outcomes[0]) is Next);
        assert(spec_scan_run(index, total, outcomes) == spec_scan_run(
            index + 1,
            total,
            outcomes.drop_first(),
        ));
    } else {
        assert(outcomes.len() == 1);
        assert(spec_scan_decision(index, total, outcomes[0]) is Exhausted);
        assert(spec_scan_run(index, total, outcomes) is None);
        assert(outcomes.drop_first().len() == 0);
        assert(spec_first_parsed(outcomes.drop_first()) is None);
        assert(spec_first_parsed(outcomes) is None);
    }
}

} // verus!
