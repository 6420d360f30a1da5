//! What holds of the template and of what a project's files say of it.

use vstd::prelude::*;
use vstd::string::*;

use crate::cmd::init;
use crate::cmd::init::{EntryView, FieldsView};
use crate::scan;
use crate::text;
use crate::text_laws;

verus! {

// ----------------------------------------------------------------- .gitignore
/// A `.gitignore` ignores the runtime directory exactly when one of its lines names
/// it, with a slash at its end or without, whatever white space stands around it.
pub proof fn law_any_line_can_ignore_the_directory(line: Seq<char>, rest: Seq<char>)
    requires
        !line.contains('\n'),
        line.len() == 0 || line[line.len() - 1] != '\r',
    ensures
        init::ignored(line.push('\n') + rest) <==> scan::trimmed(line) == ".agproc/"@
            || scan::trimmed(line) == ".agproc"@ || init::ignored(rest),
        !init::ignored(Seq::empty()),
{
    let whole = line.push('\n') + rest;
    text_laws::law_lines_of_text_are_cut_at_newlines(line, rest);
    let all = scan::lines(whole);
    let others = scan::lines(rest);
    assert(all == seq![line] + others);
    if init::ignores(line) {
        assert(all[0] == line);
    }
    if init::ignored(rest) {
        let i = choose|i: int| 0 <= i < others.len() && init::ignores(#[trigger] others[i]);
        assert(all[i + 1] == others[i]);
    }
    if init::ignored(whole) && !init::ignores(line) {
        let i = choose|i: int| 0 <= i < all.len() && init::ignores(#[trigger] all[i]);
        assert(i > 0);
        assert(others[i - 1] == all[i]);
    }
}

/// The entry is added on a line of its own, at the end.
pub proof fn law_the_entry_is_a_line_of_its_own(existing: Seq<char>)
    ensures
        existing.len() == 0 || existing[existing.len() - 1] == '\n' ==> init::with_entry(existing)
            == existing + ".agproc/\n"@,
        existing.len() > 0 && existing[existing.len() - 1] != '\n' ==> init::with_entry(existing)
            == existing + "\n.agproc/\n"@,
{
    reveal_strlit(".agproc/\n");
    reveal_strlit("\n.agproc/\n");
    if existing.len() > 0 && existing[existing.len() - 1] != '\n' {
        assert(init::with_entry(existing) =~= existing + "\n.agproc/\n"@);
    }
}

// ------------------------------------------------------------------- template
/// A project with a Rust binary gets a service that runs it; any other gets the
/// hint at one.
pub proof fn law_rust_services_run_their_binary(name: Seq<char>)
    ensures
        init::backend_text(Some(name)) == init::BACKEND_HEAD@ + name + init::BACKEND_TAIL@,
        init::backend_text(None) == init::BACKEND_COMMENT@,
{
}

/// Of a Node project the scripts decide what the hint builds and runs: the preview
/// where there is one, else the development server, else the start script.
pub proof fn law_node_services_run_their_scripts(names: Seq<Seq<char>>)
    ensures
        ({
            let build = if names.contains("build"@) {
                init::FRONTEND_BUILD@
            } else {
                Seq::empty()
            };
            let head = init::FRONTEND_HEAD@ + (build + init::FRONTEND_NOTE@);
            &&& names.contains("preview"@) ==> init::frontend_text(Some(names)) == head
                + init::FRONTEND_PREVIEW@ + init::FRONTEND_PROBE@
            &&& !names.contains("preview"@) && names.contains("dev"@) ==> init::frontend_text(
                Some(names),
            ) == head + init::FRONTEND_DEV@ + init::FRONTEND_PROBE@
            &&& !names.contains("preview"@) && !names.contains("dev"@) ==> init::frontend_text(
                Some(names),
            ) == head + init::FRONTEND_START@ + init::FRONTEND_PROBE@
        }),
        init::frontend_text(None) == init::FRONTEND_HEAD@ + (init::FRONTEND_BUILD@
            + init::FRONTEND_PREVIEW@) + init::FRONTEND_PROBE@,
{
    let build = if names.contains("build"@) {
        init::FRONTEND_BUILD@
    } else {
        Seq::empty()
    };
    let head = init::FRONTEND_HEAD@ + (build + init::FRONTEND_NOTE@);
    let found = init::frontend_text(Some(names));
    if names.contains("preview"@) {
        assert(found =~= head + init::FRONTEND_PREVIEW@ + init::FRONTEND_PROBE@);
    } else if names.contains("dev"@) {
        assert(found =~= head + init::FRONTEND_DEV@ + init::FRONTEND_PROBE@);
    } else {
        assert(found =~= head + init::FRONTEND_START@ + init::FRONTEND_PROBE@);
    }
}

// -------------------------------------------------------------- project files
proof fn lemma_text_field_is(fields: FieldsView, name: Seq<char>, i: int)
    requires
        0 <= i < fields.len(),
        fields[i].0 == name,
        forall|j: int| 0 <= j < i ==> (#[trigger] fields[j]).0 != name,
    ensures
        init::text_field(fields, name) == fields[i].1,
    decreases fields.len(),
{
    if i > 0 {
        assert(fields[0].0 != name);
        let rest = fields.skip(1);
        assert forall|j: int| 0 <= j < i - 1 implies (#[trigger] rest[j]).0 != name by {
            assert(fields[j + 1].0 != name);
        }
        lemma_text_field_is(rest, name, i - 1);
    }
}

proof fn lemma_no_text_field(fields: FieldsView, name: Seq<char>)
    requires
        forall|j: int| 0 <= j < fields.len() ==> (#[trigger] fields[j]).0 != name,
    ensures
        init::text_field(fields, name) is None,
    decreases fields.len(),
{
    if fields.len() > 0 {
        assert(fields[0].0 != name);
        let rest = fields.skip(1);
        assert forall|j: int| 0 <= j < rest.len() implies (#[trigger] rest[j]).0 != name by {
            assert(fields[j + 1].0 != name);
        }
        lemma_no_text_field(rest, name);
    }
}

proof fn lemma_entry_index_is(names: Seq<Seq<char>>, name: Seq<char>, i: int)
    requires
        0 <= i < names.len(),
        names[i] == name,
        forall|j: int| 0 <= j < i ==> #[trigger] names[j] != name,
    ensures
        init::entry_index(names, name) == Some(i),
    decreases names.len(),
{
    if i > 0 {
        assert(names[0] != name);
        let rest = names.skip(1);
        assert forall|j: int| 0 <= j < i - 1 implies #[trigger] rest[j] != name by {
            assert(names[j + 1] != name);
        }
        lemma_entry_index_is(rest, name, i - 1);
    }
}

proof fn lemma_no_entry_index(names: Seq<Seq<char>>, name: Seq<char>)
    requires
        forall|j: int| 0 <= j < names.len() ==> #[trigger] names[j] != name,
    ensures
        init::entry_index(names, name) is None,
    decreases names.len(),
{
    if names.len() > 0 {
        assert(names[0] != name);
        let rest = names.skip(1);
        assert forall|j: int| 0 <= j < rest.len() implies #[trigger] rest[j] != name by {
            assert(names[j + 1] != name);
        }
        lemma_no_entry_index(rest, name);
    }
}

/// Does entry `i` of the document have the name, and none before it?
pub open spec fn first_entry(entries: Seq<EntryView>, name: Seq<char>, i: int) -> bool {
    &&& 0 <= i < entries.len()
    &&& entries[i].0 == name
    &&& forall|j: int| 0 <= j < i ==> (#[trigger] entries[j]).0 != name
}

/// Does field `i` of the table have the name, and none before it?
pub open spec fn first_field(fields: FieldsView, name: Seq<char>, i: int) -> bool {
    &&& 0 <= i < fields.len()
    &&& fields[i].0 == name
    &&& forall|j: int| 0 <= j < i ==> (#[trigger] fields[j]).0 != name
}

/// The binary of a manifest is the one that its first `[[bin]]` table names.
pub proof fn law_the_first_binary_counts(
    entries: Seq<EntryView>,
    i: int,
    items: Seq<Option<FieldsView>>,
    fields: FieldsView,
    f: int,
    name: Seq<char>,
)
    requires
        first_entry(entries, "bin"@, i),
        entries[i].2 == Some(items),
        items.len() > 0,
        items[0] == Some(fields),
        first_field(fields, "name"@, f),
        fields[f].1 == Some(name),
    ensures
        init::binary_of(entries) == Some(name),
{
    let names = init::entry_names(entries);
    assert forall|j: int| 0 <= j < i implies #[trigger] names[j] != "bin"@ by {
        assert(entries[j].0 != "bin"@);
    }
    lemma_entry_index_is(names, "bin"@, i);
    lemma_text_field_is(fields, "name"@, f);
}

/// Without a `[[bin]]` table the binary is called like the package, and without a
/// package either there is none.
pub proof fn law_binaries_are_called_like_the_package(
    entries: Seq<EntryView>,
    i: int,
    fields: FieldsView,
    f: int,
)
    requires
        forall|j: int| 0 <= j < entries.len() ==> (#[trigger] entries[j]).0 != "bin"@,
    ensures
        first_entry(entries, "package"@, i) && entries[i].1 == Some(fields) && first_field(
            fields,
            "name"@,
            f,
        ) ==> init::binary_of(entries) == fields[f].1,
        first_entry(entries, "package"@, i) && entries[i].1 is None ==> init::binary_of(entries)
            is None,
        (forall|j: int| 0 <= j < entries.len() ==> (#[trigger] entries[j]).0 != "package"@)
            ==> init::binary_of(entries) is None,
{
    let names = init::entry_names(entries);
    assert forall|j: int| 0 <= j < names.len() implies #[trigger] names[j] != "bin"@ by {
        assert(entries[j].0 != "bin"@);
    }
    lemma_no_entry_index(names, "bin"@);
    if first_entry(entries, "package"@, i) {
        assert forall|j: int| 0 <= j < i implies #[trigger] names[j] != "package"@ by {
            assert(entries[j].0 != "package"@);
        }
        lemma_entry_index_is(names, "package"@, i);
        if entries[i].1 == Some(fields) && first_field(fields, "name"@, f) {
            lemma_text_field_is(fields, "name"@, f);
        }
    }
    if forall|j: int| 0 <= j < entries.len() ==> (#[trigger] entries[j]).0 != "package"@ {
        assert forall|j: int| 0 <= j < names.len() implies #[trigger] names[j] != "package"@ by {
            assert(entries[j].0 != "package"@);
        }
        lemma_no_entry_index(names, "package"@);
    }
}

/// A field is found by its name, the first of them where there are more.
pub proof fn law_fields_are_found_by_name(fields: FieldsView, name: Seq<char>, f: int)
    ensures
        first_field(fields, name, f) ==> init::text_field(fields, name) == fields[f].1,
        (forall|j: int| 0 <= j < fields.len() ==> (#[trigger] fields[j]).0 != name)
            ==> init::text_field(fields, name) is None,
{
    if first_field(fields, name, f) {
        lemma_text_field_is(fields, name, f);
    }
    if forall|j: int| 0 <= j < fields.len() ==> (#[trigger] fields[j]).0 != name {
        lemma_no_text_field(fields, name);
    }
}

/// The scripts of a package are those under that name, and no others.
pub proof fn law_scripts_are_found_by_name(
    object: (Seq<char>, Option<Seq<Seq<char>>>),
    rest: Seq<(Seq<char>, Option<Seq<Seq<char>>>)>,
)
    ensures
        init::scripts_of(Seq::empty()) is None,
        object.0 == "scripts"@ ==> init::scripts_of(seq![object] + rest) == object.1,
        object.0 != "scripts"@ ==> init::scripts_of(seq![object] + rest) == init::scripts_of(rest),
{
    assert((seq![object] + rest).skip(1) =~= rest);
}

/// What was read of a document is seen as it is: names, texts, tables and lists.
pub proof fn law_documents_are_seen_as_they_are(
    entries: Seq<init::Entry>,
    i: int,
    fields: Seq<(String, Option<String>)>,
    f: int,
)
    ensures
        init::entries_view(entries).len() == entries.len(),
        0 <= i < entries.len() ==> {
            let seen = init::entries_view(entries)[i];
            &&& seen.0 == entries[i].name@
            &&& seen.1 is Some <==> entries[i].table is Some
            &&& entries[i].table matches Some(table) ==> seen.1 == Some(init::fields_view(table@))
            &&& seen.2 is Some <==> entries[i].list is Some
            &&& entries[i].list matches Some(list) ==> seen.2->Some_0.len() == list@.len()
            &&& entries[i].list matches Some(list) ==> forall|k: int|
                0 <= k < list@.len() ==> (#[trigger] seen.2->Some_0[k] is Some <==> list@[k] is Some)
                    && (list@[k] is Some ==> seen.2->Some_0[k] == Some(
                    init::fields_view(list@[k]->Some_0@),
                ))
        },
        init::fields_view(fields).len() == fields.len(),
        0 <= f < fields.len() ==> init::fields_view(fields)[f].0 == fields[f].0@ && (
        match fields[f].1 {
            Some(s) => init::fields_view(fields)[f].1 == Some(s@),
            None => init::fields_view(fields)[f].1 is None,
        }),
{
}

/// What was read of a package is seen as it is, and a list that may be absent too.
pub proof fn law_packages_are_seen_as_they_are(
    objects: Seq<(String, Option<Vec<String>>)>,
    i: int,
    names: Vec<String>,
)
    ensures
        init::objects_view(objects).len() == objects.len(),
        0 <= i < objects.len() ==> init::objects_view(objects)[i].0 == objects[i].0@ && (
        match objects[i].1 {
            Some(list) => init::objects_view(objects)[i].1 == Some(text::texts(list@)),
            None => init::objects_view(objects)[i].1 is None,
        }),
        init::opt_texts(Some(&names)) == Some(text::texts(names@)),
        init::opt_texts(None) is None,
{
}

} // verus!
