//! The text that the `registry tags`, `self state` and `self config` commands print.
use vstd::prelude::*;
use crate::store::texts;
use crate::text::{concat2, concat3, to_owned};
use crate::tui_text::{decimal, decimal_text, StateSummary};

verus! {

/// The lines reporting the tags of a reference: a heading (noting offline
/// mode, where the tags come from the cache) and one indented line per tag;
/// a single line when there are none.
pub open spec fn tags_report_of(reference: Seq<char>, tags: Seq<String>, offline: bool) -> Seq<Seq<char>> {
    if tags.len() == 0 {
        if offline {
            seq!["No cached tags found for '"@ + reference + "' (offline mode)"@]
        } else {
            seq!["No tags found for '"@ + reference + "'"@]
        }
    } else {
        seq![
            if offline {
                "Cached tags for '"@ + reference + "' (offline mode):"@
            } else {
                "Tags for '"@ + reference + "':"@
            },
        ] + tags.map_values(|t: String| "  "@ + t@)
    }
}

/// The lines reporting the tags of a reference.
pub fn tags_report(reference: &str, tags: &Vec<String>, offline: bool) -> (r: Vec<String>)
    ensures
        r@.map_values(|s: String| s@) == tags_report_of(reference@, tags@, offline),
{
    let mut out: Vec<String> = Vec::new();
    if tags.len() == 0 {
        if offline {
            out.push(concat3("No cached tags found for '", reference, "' (offline mode)"));
        } else {
            out.push(concat3("No tags found for '", reference, "'"));
        }
        assert(out@.map_values(|s: String| s@) =~= tags_report_of(reference@, tags@, offline));
        return out;
    }
    if offline {
        out.push(concat3("Cached tags for '", reference, "' (offline mode):"));
    } else {
        out.push(concat3("Tags for '", reference, "':"));
    }
    let ghost head = out@.map_values(|s: String| s@);
    let mut i: usize = 0;
    while i < tags.len()
        invariant
            i <= tags.len(),
            head.len() == 1,
            out@.map_values(|s: String| s@) == head + tags@.take(i as int).map_values(|t: String| "  "@ + t@),
        decreases tags.len() - i,
    {
        let ghost before = out@.map_values(|s: String| s@);
        out.push(concat2("  ", tags[i].as_str()));
        assert(out@.map_values(|s: String| s@) =~= before.push("  "@ + tags@[i as int]@));
        assert(tags@.take(i + 1).map_values(|t: String| "  "@ + t@) =~= tags@.take(i as int).map_values(
            |t: String| "  "@ + t@,
        ).push("  "@ + tags@[i as int]@));
        i = i + 1;
    }
    assert(tags@.take(tags.len() as int) =~= tags@);
    assert(out@.map_values(|s: String| s@) =~= tags_report_of(reference@, tags@, offline));
    out
}

/// The line describing a configured registry.
pub fn registry_status_line(name: &str, has_helper: bool) -> (r: String)
    ensures
        r@ == "  - "@ + name@ + ": "@ + (if has_helper {
            "credential-helper configured"@
        } else {
            "no credential-helper"@
        }),
{
    let status = if has_helper {
        "credential-helper configured"
    } else {
        "no credential-helper"
    };
    let head = concat3("  - ", name, ": ");
    concat2(head.as_str(), status)
}

/// The line warning that a pulled package was already stored.
pub fn already_stored_warning(reference: &str) -> (r: String)
    ensures
        r@ == "package '"@ + reference@ + "' already exists in the local store"@,
{
    concat3("package '", reference, "' already exists in the local store")
}

} // verus!

verus! {

/// The lines `self state` prints: the migration state, where the tool keeps
/// its data (with the sizes as the caller formats them), and where it logs.
pub open spec fn state_report_of(s: StateSummary, log_dir: Seq<char>, log_file: Seq<char>) -> Seq<Seq<char>> {
    seq![
        "[Migrations]"@,
        "Current: \t"@ + decimal_text(s.migration_current as nat) + "/"@ + decimal_text(
            s.migration_total as nat,
        ),
        ""@,
        "[Storage]"@,
        "Executable: \t"@ + s.executable@,
        "Data storage: \t"@ + s.data_dir@,
        "Content store: \t"@ + s.store_dir@ + " ("@ + s.store_size@ + ")"@,
        "Image metadata: "@ + s.metadata_file@ + " ("@ + s.metadata_size@ + ")"@,
        ""@,
        "[Logging]"@,
        "Log directory: \t"@ + log_dir,
        "Log file: \t"@ + log_file,
    ]
}

/// The lines `self state` prints; `log_file` is the log file in `log_dir`.
pub fn state_report(s: &StateSummary, log_dir: &str, log_file: &str) -> (r: Vec<String>)
    ensures
        texts(r@) == state_report_of(*s, log_dir@, log_file@),
{
    let current = decimal(s.migration_current as u64);
    let total = decimal(s.migration_total as u64);
    let a = concat3("Current: \t", current.as_str(), "/");
    let store = concat3("Content store: \t", s.store_dir.as_str(), " (");
    let meta = concat3("Image metadata: ", s.metadata_file.as_str(), " (");
    let out = vec![
        to_owned("[Migrations]"),
        concat2(a.as_str(), total.as_str()),
        to_owned(""),
        to_owned("[Storage]"),
        concat2("Executable: \t", s.executable.as_str()),
        concat2("Data storage: \t", s.data_dir.as_str()),
        concat3(store.as_str(), s.store_size.as_str(), ")"),
        concat3(meta.as_str(), s.metadata_size.as_str(), ")"),
        to_owned(""),
        to_owned("[Logging]"),
        concat2("Log directory: \t", log_dir),
        concat2("Log file: \t", log_file),
    ];
    assert(texts(out@) =~= state_report_of(*s, log_dir@, log_file@));
    out
}

/// The lines of the `[Registries]` section: `(none configured)`, or one
/// status line per registry, in order.
pub open spec fn registry_lines_of(registries: Seq<(String, bool)>) -> Seq<Seq<char>> {
    if registries.len() == 0 {
        seq!["(none configured)"@]
    } else {
        registries.map_values(
            |e: (String, bool)|
                "  - "@ + e.0@ + ": "@ + (if e.1 {
                    "credential-helper configured"@
                } else {
                    "no credential-helper"@
                }),
        )
    }
}

/// The lines `self config` prints: where the global and the local
/// configuration files are and whether they exist (with how to create a
/// missing global one, in its directory `global_dir` when it has one), the
/// configured registries with whether each has a credential helper, and
/// whether a `.env` file exists and how many variables it defines.
pub open spec fn config_report_of(
    global_path: Seq<char>,
    global_dir: Option<Seq<char>>,
    global_exists: bool,
    local_path: Seq<char>,
    local_exists: bool,
    registries: Seq<(String, bool)>,
    dotenv_path: Seq<char>,
    dotenv_vars: Option<u64>,
) -> Seq<Seq<char>> {
    seq!["[Configuration]"@, "Global config:\t"@ + global_path] + (if global_exists {
        seq!["Status:\t\texists"@]
    } else {
        seq![
            "Status:\t\tnot created (will use defaults)"@,
            ""@,
            "To create a default config file with examples, run:"@,
        ] + match global_dir {
            Some(d) => seq!["  mkdir -p "@ + d],
            None => Seq::empty(),
        } + seq!["  touch "@ + global_path]
    }) + seq![""@, "Local config:\t"@ + local_path] + (if local_exists {
        seq!["Status:\t\texists"@]
    } else {
        seq!["Status:\t\tnot created (will use global config)"@]
    }) + seq![""@, "[Registries]"@] + registry_lines_of(registries) + seq![
        ""@,
        "[Environment]"@,
        "Dotenv file:\t"@ + dotenv_path,
    ] + match dotenv_vars {
        Some(n) => seq!["Status:\t\texists ("@ + decimal_text(n as nat) + " variable(s) defined in file)"@],
        None => seq!["Status:\t\tnot found"@],
    }
}

fn push_text(out: &mut Vec<String>, line: String)
    ensures
        texts(final(out)@) == texts(old(out)@).push(line@),
{
    let ghost before = texts(out@);
    let ghost l = line@;
    out.push(line);
    assert(texts(out@) =~= before.push(l));
}

fn push_registry_lines(out: &mut Vec<String>, registries: &Vec<(String, bool)>)
    ensures
        texts(final(out)@) == texts(old(out)@) + registry_lines_of(registries@),
{
    if registries.len() == 0 {
        push_text(out, to_owned("(none configured)"));
        assert(texts(out@) =~= texts(old(out)@) + registry_lines_of(registries@));
        return;
    }
    let ghost start = texts(out@);
    let ghost want = registry_lines_of(registries@);
    let mut i: usize = 0;
    while i < registries.len()
        invariant
            i <= registries.len(),
            registries@.len() > 0,
            want == registry_lines_of(registries@),
            texts(out@) == start + want.take(i as int),
        decreases registries.len() - i,
    {
        let line = registry_status_line(registries[i].0.as_str(), registries[i].1);
        assert(line@ == want[i as int]);
        push_text(out, line);
        assert(want.take(i + 1) =~= want.take(i as int).push(want[i as int]));
        i = i + 1;
    }
    assert(want.take(registries.len() as int) =~= want);
}

/// The lines `self config` prints.
pub fn config_report(
    global_path: &str,
    global_dir: Option<&str>,
    global_exists: bool,
    local_path: &str,
    local_exists: bool,
    registries: &Vec<(String, bool)>,
    dotenv_path: &str,
    dotenv_vars: Option<u64>,
) -> (r: Vec<String>)
    ensures
        texts(r@) == config_report_of(
            global_path@,
            match global_dir {
                Some(d) => Some(d@),
                None => None,
            },
            global_exists,
            local_path@,
            local_exists,
            registries@,
            dotenv_path@,
            dotenv_vars,
        ),
{
    let mut out: Vec<String> = Vec::new();
    assert(texts(out@) =~= Seq::<Seq<char>>::empty());
    push_text(&mut out, to_owned("[Configuration]"));
    push_text(&mut out, concat2("Global config:\t", global_path));
    let ghost a = texts(out@);
    if global_exists {
        push_text(&mut out, to_owned("Status:\t\texists"));
    } else {
        push_text(&mut out, to_owned("Status:\t\tnot created (will use defaults)"));
        push_text(&mut out, to_owned(""));
        push_text(&mut out, to_owned("To create a default config file with examples, run:"));
        match global_dir {
            Some(d) => push_text(&mut out, concat2("  mkdir -p ", d)),
            None => {},
        }
        push_text(&mut out, concat2("  touch ", global_path));
    }
    let ghost b = texts(out@);
    push_text(&mut out, to_owned(""));
    push_text(&mut out, concat2("Local config:\t", local_path));
    if local_exists {
        push_text(&mut out, to_owned("Status:\t\texists"));
    } else {
        push_text(&mut out, to_owned("Status:\t\tnot created (will use global config)"));
    }
    push_text(&mut out, to_owned(""));
    push_text(&mut out, to_owned("[Registries]"));
    let ghost c = texts(out@);
    push_registry_lines(&mut out, registries);
    let ghost d = texts(out@);
    push_text(&mut out, to_owned(""));
    push_text(&mut out, to_owned("[Environment]"));
    push_text(&mut out, concat2("Dotenv file:\t", dotenv_path));
    match dotenv_vars {
        Some(n) => {
            let count = decimal(n);
            push_text(&mut out, concat3("Status:\t\texists (", count.as_str(), " variable(s) defined in file)"));
        },
        None => push_text(&mut out, to_owned("Status:\t\tnot found")),
    }
    assert(texts(out@) =~= config_report_of(
        global_path@,
        match global_dir {
            Some(d) => Some(d@),
            None => None,
        },
        global_exists,
        local_path@,
        local_exists,
        registries@,
        dotenv_path@,
        dotenv_vars,
    ));
    out
}

} // verus!
