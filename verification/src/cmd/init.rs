//! `agproc init` — create an `agproc.toml` template.

use vstd::prelude::*;
use vstd::string::*;

use crate::paths;
use crate::paths::FsPath;
use crate::scan;
use crate::text;

verus! {

pub struct InitArgs {
    pub root: FsPath,
    pub force: bool,
}

/// May the template be written to `config_path`, which exists or not?
pub fn permit(config_path: &FsPath, exists_now: bool, force: bool) -> (r: Result<(), String>)
    ensures
        match r {
            Ok(_) => !exists_now || force,
            Err(message) => exists_now && !force && message@ == paths::shown(config_path@)
                + " already exists (use --force to overwrite)"@,
        },
{
    if exists_now && !force {
        let mut out = config_path.display();
        out.append(" already exists (use --force to overwrite)");
        return Err(out);
    }
    Ok(())
}

// ----------------------------------------------------------------- .gitignore
/// Does a line ignore the runtime directory?
pub open spec fn ignores(line: Seq<char>) -> bool {
    scan::trimmed(line) == ".agproc/"@ || scan::trimmed(line) == ".agproc"@
}

/// Does a `.gitignore` ignore the runtime directory?
pub open spec fn ignored(existing: Seq<char>) -> bool {
    exists|i: int|
        0 <= i < scan::lines(existing).len() && ignores(#[trigger] scan::lines(existing)[i])
}

/// A `.gitignore` that ignores the runtime directory too.
pub open spec fn with_entry(existing: Seq<char>) -> Seq<char> {
    (if existing.len() > 0 && existing.last() != '\n' {
        existing.push('\n')
    } else {
        existing
    }) + ".agproc/\n"@
}

/// Append `.agproc/` to a `.gitignore` when it is not ignored yet; `None` when
/// nothing is to be written.
pub fn ensure_gitignore(existing: &str) -> (r: Option<String>)
    ensures
        match r {
            Some(updated) => !ignored(existing@) && updated@ == with_entry(existing@),
            None => ignored(existing@),
        },
{
    let list = scan::split_lines(existing);
    let ghost all = scan::lines(existing@);
    for i in 0..list.len()
        invariant
            all == scan::lines(existing@),
            text::texts(list@) == all,
            forall|k: int| 0 <= k < i ==> !ignores(#[trigger] all[k]),
    {
        assert(all[i as int] == list@[i as int]@);
        let line = scan::trim(list[i].as_str());
        if text::same(line.as_str(), ".agproc/") || text::same(line.as_str(), ".agproc") {
            assert(ignores(all[i as int]));
            return None;
        }
    }
    let chars = text::chars_of(existing);
    let mut updated = existing.to_string();
    if chars.len() > 0 && chars[chars.len() - 1] != '\n' {
        updated.push('\n');
    }
    updated.append(".agproc/\n");
    Some(updated)
}

// ------------------------------------------------------------------- template
/// How every template begins.
pub const HEADING: &'static str =
    "# agproc.toml — dev-time process manager for AI agents and humans.\n# Agents: run `agproc skills` for the full, project-aware guide.\n#\n# start   : build (if needed) + run + wait for the probe; a no-op when already running\n# restart : stop, then build + run + wait for the probe\n# stop/ps/logs: manage and inspect what agproc started\n\n[settings]\n# shell = \"sh\"                      # shell for the string form of build-cmd / run-cmd\n# stop-timeout-seconds = 10         # SIGTERM -> SIGKILL grace period\n# log-max-bytes = 33554432          # rotate .agproc/logs/*.log past 32 MiB (0 disables)\n# port-check = true                 # warn about foreign listeners on the probe port\n\n";

/// A Rust service, up to the name of its binary.
pub const BACKEND_HEAD: &'static str =
    "[[service]]\nname = \"backend\"\nbuild-cmd = \"cargo build\"\nrun-cmd = \"./target/debug/";

/// A Rust service, from the name of its binary on.
pub const BACKEND_TAIL: &'static str =
    "\"\nprobe = {\n  http-get = { scheme = \"http\", host = \"127.0.0.1\", port = 3000, path = \"/healthz\" },\n  initial-delay-seconds = 1,\n  period-seconds = 1,\n  timeout-seconds = 2,\n  failure-threshold = 3,\n}\n\n";

/// A Rust service that is only hinted at.
pub const BACKEND_COMMENT: &'static str =
    "# [[service]]\n# name = \"backend\"\n# build-cmd = \"cargo build\"\n# run-cmd = \"./target/debug/my-backend\"\n# probe = { http-get = { port = 3000, path = \"/healthz\" },\n#                     initial-delay-seconds = 1, period-seconds = 1,\n#                     timeout-seconds = 2, failure-threshold = 3 }\n\n";

/// How the hint at a Node service begins.
pub const FRONTEND_HEAD: &'static str =
    "# [[service]]\n# name = \"frontend\"\n";

pub const FRONTEND_BUILD: &'static str =
    "# build-cmd = \"pnpm build\"\n";

pub const FRONTEND_NOTE: &'static str =
    "# # run-cmd should NOT watch files: agproc restarts it explicitly, so a\n# # non-watch server (e.g. `vite preview`) keeps restarts meaningful.\n";

pub const FRONTEND_PREVIEW: &'static str =
    "# run-cmd = \"pnpm preview --port 5173\"\n";

pub const FRONTEND_DEV: &'static str =
    "# run-cmd = \"pnpm dev --port 5173\"   # only if it does not watch files\n";

pub const FRONTEND_START: &'static str =
    "# run-cmd = \"pnpm start\"\n";

/// How the hint at a Node service ends.
pub const FRONTEND_PROBE: &'static str =
    "# probe = { tcp-connect = { host = \"127.0.0.1\", port = 5173 },\n#                     initial-delay-seconds = 1, period-seconds = 1,\n#                     timeout-seconds = 2, failure-threshold = 3 }\n";

/// The template's Rust service.
pub open spec fn backend_text(binary: Option<Seq<char>>) -> Seq<char> {
    match binary {
        Some(name) => BACKEND_HEAD@ + name + BACKEND_TAIL@,
        None => BACKEND_COMMENT@,
    }
}

/// The template's Node service.
pub open spec fn frontend_text(scripts: Option<Seq<Seq<char>>>) -> Seq<char> {
    FRONTEND_HEAD@ + (match scripts {
        Some(names) => (if names.contains("build"@) {
            FRONTEND_BUILD@
        } else {
            Seq::empty()
        }) + FRONTEND_NOTE@ + (if names.contains("preview"@) {
            FRONTEND_PREVIEW@
        } else if names.contains("dev"@) {
            FRONTEND_DEV@
        } else {
            FRONTEND_START@
        }),
        None => FRONTEND_BUILD@ + FRONTEND_PREVIEW@,
    }) + FRONTEND_PROBE@
}

/// The names of a list, when there is one.
pub open spec fn opt_texts(list: Option<&Vec<String>>) -> Option<Seq<Seq<char>>> {
    match list {
        Some(names) => Some(text::texts(names@)),
        None => None,
    }
}

/// The template for a project: `binary` is its Rust binary and `scripts` its
/// Node scripts, where it has any.
pub fn render(binary: Option<&str>, scripts: Option<&Vec<String>>) -> (out: String)
    ensures
        out@ == HEADING@ + backend_text(text::opt_str(binary)) + frontend_text(opt_texts(scripts)),
{
    let mut out = HEADING.to_string();
    match binary {
        Some(name) => {
            let mut service = BACKEND_HEAD.to_string();
            service.append(name);
            service.append(BACKEND_TAIL);
            out.append(service.as_str());
        },
        None => out.append(BACKEND_COMMENT),
    }
    let mut frontend = FRONTEND_HEAD.to_string();
    let mut body = String::new();
    assert(body@ =~= Seq::<char>::empty());
    match scripts {
        Some(names) => {
            if text::any_same(names, "build") {
                body.append(FRONTEND_BUILD);
            }
            body.append(FRONTEND_NOTE);
            if text::any_same(names, "preview") {
                body.append(FRONTEND_PREVIEW);
            } else if text::any_same(names, "dev") {
                body.append(FRONTEND_DEV);
            } else {
                body.append(FRONTEND_START);
            }
        },
        None => {
            body.append(FRONTEND_BUILD);
            body.append(FRONTEND_PREVIEW);
        },
    }
    frontend.append(body.as_str());
    frontend.append(FRONTEND_PROBE);
    assert(frontend@ =~= frontend_text(opt_texts(scripts)));
    out.append(frontend.as_str());
    out
}

// -------------------------------------------------------------- project files
/// The fields of a table, and the text of each that is one.
pub type Fields = Vec<(String, Option<String>)>;

/// One entry of a document.
pub struct Entry {
    pub name: String,
    /// The fields, when the entry is a table.
    pub table: Option<Fields>,
    /// The items, when the entry is an array; the fields of each that is a table.
    pub list: Option<Vec<Option<Fields>>>,
}

/// The fields of a table, as plain values.
pub type FieldsView = Seq<(Seq<char>, Option<Seq<char>>)>;

/// An entry of a document, as plain values: the name, the table, the array.
pub type EntryView = (Seq<char>, Option<FieldsView>, Option<Seq<Option<FieldsView>>>);

pub open spec fn fields_view(fields: Seq<(String, Option<String>)>) -> FieldsView {
    fields.map_values(
        |f: (String, Option<String>)|
            (
                f.0@,
                match f.1 {
                    Some(s) => Some(s@),
                    None => None,
                },
            ),
    )
}

pub open spec fn table_view(table: Option<Fields>) -> Option<FieldsView> {
    match table {
        Some(fields) => Some(fields_view(fields@)),
        None => None,
    }
}

pub open spec fn list_view(list: Option<Vec<Option<Fields>>>) -> Option<Seq<Option<FieldsView>>> {
    match list {
        Some(items) => Some(items@.map_values(|item: Option<Fields>| table_view(item))),
        None => None,
    }
}

pub open spec fn entries_view(entries: Seq<Entry>) -> Seq<EntryView> {
    entries.map_values(|e: Entry| (e.name@, table_view(e.table), list_view(e.list)))
}

/// The entries of a TOML document; nothing when it is none.
pub uninterp spec fn toml_entries(raw: Seq<char>) -> Option<Seq<EntryView>>;

/// `toml::from_str` into a document: its entries, as far down as the texts in
/// tables and in arrays of tables. How TOML is read is left to the name.
#[verifier::external_body]
fn parse_toml(raw: &str) -> (out: Option<Vec<Entry>>)
    ensures
        match out {
            Some(entries) => toml_entries(raw@) == Some(entries_view(entries@)),
            None => toml_entries(raw@) is None,
        },
{
    let fields = |t: &toml::Table| -> Fields {
        t.iter().map(|(k, v)| (k.clone(), v.as_str().map(str::to_string))).collect()
    };
    let document: toml::Table = toml::from_str(raw).ok()?;
    let entry = |(k, v): (&String, &toml::Value)| Entry {
        name: k.clone(),
        table: v.as_table().map(fields),
        list: v.as_array().map(|items| items.iter().map(|i| i.as_table().map(fields)).collect()),
    };
    Some(document.iter().map(entry).collect())
}

/// The fields of a JSON document; nothing when it is none. Of each field that is
/// an object, the names of its fields.
pub uninterp spec fn json_objects(raw: Seq<char>) -> Option<
    Seq<(Seq<char>, Option<Seq<Seq<char>>>)>,
>;

pub open spec fn objects_view(objects: Seq<(String, Option<Vec<String>>)>) -> Seq<
    (Seq<char>, Option<Seq<Seq<char>>>),
> {
    objects.map_values(
        |o: (String, Option<Vec<String>>)|
            (
                o.0@,
                match o.1 {
                    Some(names) => Some(text::texts(names@)),
                    None => None,
                },
            ),
    )
}

/// `serde_json::from_str` into a value: when it is an object, its fields, and of
/// each that is an object the names of its fields. How JSON is read is left to
/// the name.
#[verifier::external_body]
fn parse_json(raw: &str) -> (out: Option<Vec<(String, Option<Vec<String>>)>>)
    ensures
        match out {
            Some(objects) => json_objects(raw@) == Some(objects_view(objects@)),
            None => json_objects(raw@) is None,
        },
{
    let value: serde_json::Value = serde_json::from_str(raw).ok()?;
    let object = value.as_object()?;
    Some(
        object
            .iter()
            .map(|(k, v)| (k.clone(), v.as_object().map(|o| o.keys().cloned().collect())))
            .collect(),
    )
}

/// The text of the first field of a name.
pub open spec fn text_field(fields: FieldsView, name: Seq<char>) -> Option<Seq<char>>
    decreases fields.len(),
{
    if fields.len() == 0 {
        None
    } else if fields[0].0 == name {
        fields[0].1
    } else {
        text_field(fields.skip(1), name)
    }
}

/// The index of the first entry of a name.
pub open spec fn entry_index(names: Seq<Seq<char>>, name: Seq<char>) -> Option<int>
    decreases names.len(),
{
    if names.len() == 0 {
        None
    } else if names[0] == name {
        Some(0)
    } else {
        match entry_index(names.skip(1), name) {
            Some(i) => Some(i + 1),
            None => None,
        }
    }
}

/// The names of the entries of a document.
pub open spec fn entry_names(entries: Seq<EntryView>) -> Seq<Seq<char>> {
    Seq::new(entries.len(), |i: int| entries[i].0)
}

/// The binary that a manifest declares: the first `[[bin]]`, else the package.
pub open spec fn binary_of(entries: Seq<EntryView>) -> Option<Seq<char>> {
    match bin_name(entries) {
        Some(name) => Some(name),
        None => match entry_index(entry_names(entries), "package"@) {
            Some(i) => match entries[i].1 {
                Some(fields) => text_field(fields, "name"@),
                None => None,
            },
            None => None,
        },
    }
}

/// The name of the first `[[bin]]`.
pub open spec fn bin_name(entries: Seq<EntryView>) -> Option<Seq<char>> {
    match entry_index(entry_names(entries), "bin"@) {
        Some(i) => match entries[i].2 {
            Some(items) => if items.len() > 0 {
                match items[0] {
                    Some(fields) => text_field(fields, "name"@),
                    None => None,
                }
            } else {
                None
            },
            None => None,
        },
        None => None,
    }
}

fn find_text(fields: &Fields, name: &str) -> (r: Option<String>)
    ensures
        match r {
            Some(s) => text_field(fields_view(fields@), name@) == Some(s@),
            None => text_field(fields_view(fields@), name@) is None,
        },
{
    let ghost all = fields_view(fields@);
    assert(all.skip(0) =~= all);
    for i in 0..fields.len()
        invariant
            all == fields_view(fields@),
            text_field(all, name@) == text_field(all.skip(i as int), name@),
    {
        assert(all.skip(i as int).skip(1) =~= all.skip(i + 1));
        assert(all.skip(i as int)[0] == all[i as int]);
        if text::same(fields[i].0.as_str(), name) {
            return match &fields[i].1 {
                Some(s) => Some(s.clone()),
                None => None,
            };
        }
    }
    None
}

fn find_entry(entries: &Vec<Entry>, name: &str) -> (r: Option<usize>)
    ensures
        match r {
            Some(i) => i < entries@.len() && entry_index(
                entry_names(entries_view(entries@)),
                name@,
            ) == Some(i as int),
            None => entry_index(entry_names(entries_view(entries@)), name@) is None,
        },
{
    let ghost all = entry_names(entries_view(entries@));
    assert(all.skip(0) =~= all);
    for i in 0..entries.len()
        invariant
            all == entry_names(entries_view(entries@)),
            entry_index(all, name@) == match entry_index(all.skip(i as int), name@) {
                Some(k) => Some(k + i),
                None => None,
            },
    {
        assert(all.skip(i as int).skip(1) =~= all.skip(i + 1));
        assert(all[i as int] == entries@[i as int].name@);
        if text::same(entries[i].name.as_str(), name) {
            return Some(i);
        }
    }
    None
}

/// The binary that the entries of a manifest declare.
pub fn binary_name(entries: &Vec<Entry>) -> (r: Option<String>)
    ensures
        match r {
            Some(name) => binary_of(entries_view(entries@)) == Some(name@),
            None => binary_of(entries_view(entries@)) is None,
        },
{
    let ghost all = entries_view(entries@);
    if let Some(i) = find_entry(entries, "bin") {
        assert(all[i as int].2 == list_view(entries@[i as int].list));
        if let Some(items) = &entries[i].list {
            if items.len() > 0 {
                assert(all[i as int].2->Some_0[0] == table_view(items@[0]));
                if let Some(fields) = &items[0] {
                    if let Some(name) = find_text(fields, "name") {
                        return Some(name);
                    }
                }
            }
        }
    }
    assert(bin_name(all) is None);
    if let Some(i) = find_entry(entries, "package") {
        assert(all[i as int].1 == table_view(entries@[i as int].table));
        if let Some(fields) = &entries[i].table {
            return find_text(fields, "name");
        }
    }
    None
}

/// Binary name from the text of a `Cargo.toml`, when it is a manifest.
pub fn cargo_target(raw: &str) -> (r: Option<String>)
    ensures
        match r {
            Some(name) => toml_entries(raw@) matches Some(entries) && binary_of(entries) == Some(
                name@,
            ),
            None => toml_entries(raw@) matches Some(entries) ==> binary_of(entries) is None,
        },
{
    match parse_toml(raw) {
        Some(entries) => binary_name(&entries),
        None => None,
    }
}

/// The script names of a package description.
pub open spec fn scripts_of(objects: Seq<(Seq<char>, Option<Seq<Seq<char>>>)>) -> Option<
    Seq<Seq<char>>,
>
    decreases objects.len(),
{
    if objects.len() == 0 {
        None
    } else if objects[0].0 == "scripts"@ {
        objects[0].1
    } else {
        scripts_of(objects.skip(1))
    }
}

/// The script names among the objects of a package description.
pub fn script_names(objects: Vec<(String, Option<Vec<String>>)>) -> (r: Option<Vec<String>>)
    ensures
        match r {
            Some(names) => scripts_of(objects_view(objects@)) == Some(text::texts(names@)),
            None => scripts_of(objects_view(objects@)) is None,
        },
{
    let ghost all = objects_view(objects@);
    assert(all.skip(0) =~= all);
    let mut left = objects;
    let mut at: usize = 0;
    while at < left.len()
        invariant
            left@ == objects@,
            all == objects_view(objects@),
            at <= left@.len(),
            scripts_of(all) == scripts_of(all.skip(at as int)),
        decreases left.len() - at,
    {
        assert(all.skip(at as int).skip(1) =~= all.skip(at + 1));
        assert(all.skip(at as int)[0] == all[at as int]);
        if text::same(left[at].0.as_str(), "scripts") {
            let found = left.remove(at);
            return found.1;
        }
        at = at + 1;
    }
    None
}

/// Script names from the text of a `package.json`, when it has any.
pub fn node_scripts(raw: &str) -> (r: Option<Vec<String>>)
    ensures
        match r {
            Some(names) => json_objects(raw@) matches Some(objects) && scripts_of(objects) == Some(
                text::texts(names@),
            ),
            None => json_objects(raw@) matches Some(objects) ==> scripts_of(objects) is None,
        },
{
    match parse_json(raw) {
        Some(objects) => script_names(objects),
        None => None,
    }
}

// ---------------------------------------------------------------------- laws
/// The entry that is added ignores the runtime directory, so doing it again
/// changes nothing; and what was there stays.
pub proof fn law_gitignore_is_updated_once(existing: Seq<char>)
    ensures
        ignored(with_entry(existing)),
        scan::starts(with_entry(existing), existing),
{
    let base = if existing.len() > 0 && existing.last() != '\n' {
        existing.push('\n')
    } else {
        existing
    };
    let entry = ".agproc/\n"@;
    reveal_strlit(".agproc/\n");
    reveal_strlit(".agproc/");
    scan::lemma_lines_after_newline(base, entry);
    assert(entry[8] == '\n');
    assert forall|i: int| 0 <= i < 8 implies entry[i] != '\n' by {}
    scan::lemma_first_index_is(entry, '\n', 8);
    let line = entry.take(8);
    assert(line =~= ".agproc/"@);
    assert(entry.skip(9) =~= Seq::empty());
    assert(line[0] == '.');
    assert(line.last() == '/');
    reveal_with_fuel(scan::lines, 2);
    assert(scan::lines(entry) =~= seq![line]);
    assert(scan::lead(line) == 0);
    assert(line.skip(0) =~= line);
    assert(scan::trimmed(line) == line);
    let all = scan::lines(with_entry(existing));
    assert(all[scan::lines(base).len() as int] == line);
    assert(ignores(all[scan::lines(base).len() as int]));
    assert(with_entry(existing).take(existing.len() as int) =~= existing);
}

} // verus!
