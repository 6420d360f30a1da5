//! What holds of environment tables and of the files they are read from.

use vstd::prelude::*;
use vstd::string::*;

use crate::envfile;
use crate::envfile::{EnvSource, Item, ItemView};
use crate::envmap;
use crate::envmap::EnvMap;
use crate::paths;
use crate::text;

verus! {

// --------------------------------------------------------------------- tables
/// A table has every name that was assigned, with what was assigned to it last.
pub proof fn law_the_last_assignment_counts(
    list: Seq<(Seq<char>, Seq<char>)>,
    name: Seq<char>,
    value: Seq<char>,
    other: Seq<char>,
)
    ensures
        envmap::assigned(Seq::empty()) == Map::<Seq<char>, Seq<char>>::empty(),
        ({
            let before = envmap::assigned(list);
            let after = envmap::assigned(list.push((name, value)));
            &&& after.contains_key(name) && after[name] == value
            &&& other != name ==> (after.contains_key(other) <==> before.contains_key(other))
            &&& other != name && before.contains_key(other) ==> after[other] == before[other]
        }),
{
    assert(list.push((name, value)).drop_last() =~= list);
}

/// The entries of a table are seen one by one, name and value.
pub proof fn law_entries_are_seen_as_they_are(entries: Seq<(String, String)>, i: int)
    ensures
        envmap::pairs(entries).len() == entries.len(),
        0 <= i < entries.len() ==> envmap::pairs(entries)[i].0 == entries[i].0@
            && envmap::pairs(entries)[i].1 == entries[i].1@,
{
}

/// A table is what its entries assign.
pub proof fn law_tables_are_their_entries(vars: EnvMap)
    ensures
        vars@ == envmap::assigned(envmap::pairs(vars.entries@)),
{
}

// ---------------------------------------------------------------------- files
/// The names of dotenv files are those of shells, and dots.
pub proof fn law_dotenv_names_are_plain(s: Seq<char>, c: char)
    ensures
        !envfile::env_name(Seq::empty()),
        envfile::env_name(seq![c]) <==> {
            let n = c as int;
            65 <= n <= 90 || 97 <= n <= 122 || n == 95
        },
        s.len() > 0 ==> (envfile::env_name(s.push(c)) <==> envfile::env_name(s) && {
            let n = c as int;
            48 <= n <= 57 || 65 <= n <= 90 || 97 <= n <= 122 || n == 95 || n == 46
        }),
{
    let one = seq![c];
    assert(one[0] == c);
    let t = s.push(c);
    if s.len() > 0 {
        assert(t[0] == s[0]);
        assert(t[s.len() as int] == c);
        if envfile::env_name(t) {
            assert forall|i: int| 0 <= i < s.len() implies text::ascii_alphanumeric(
                #[trigger] s[i],
            ) || s[i] == '_' || s[i] == '.' by {
                assert(t[i] == s[i]);
            }
        }
        if envfile::env_name(s) {
            assert forall|i: int| 0 <= i < s.len() implies text::ascii_alphanumeric(
                #[trigger] t[i],
            ) || t[i] == '_' || t[i] == '.' by {
                assert(t[i] == s[i]);
            }
        }
    }
}

/// A file whose first line fails is refused with that line's failure, and with the
/// fix where the line is no assignment.
pub proof fn law_a_failed_line_is_told_with_its_fix(
    path: Seq<u8>,
    line_failed: bool,
    message: Seq<char>,
    rest: Seq<ItemView>,
    vars: Map<Seq<char>, Seq<char>>,
)
    ensures
        ({
            let items = seq![Err::<(Seq<char>, Seq<char>), (bool, Seq<char>)>((line_failed, message))]
                + rest;
            let told = "cannot parse env-file "@ + paths::shown(path) + ": "@ + message;
            &&& line_failed ==> envfile::collected_onto(path, items, vars) == Err::<
                Map<Seq<char>, Seq<char>>,
                Seq<char>,
            >(
                told
                    + " (a line must be KEY=VALUE, and a value containing spaces or '#' must be quoted: KEY=\"a value\")"@,
            )
            &&& !line_failed ==> envfile::collected_onto(path, items, vars) == Err::<
                Map<Seq<char>, Seq<char>>,
                Seq<char>,
            >(told)
        }),
{
    let items = seq![Err::<(Seq<char>, Seq<char>), (bool, Seq<char>)>((line_failed, message))]
        + rest;
    let told = "cannot parse env-file "@ + paths::shown(path) + ": "@ + message;
    assert(items[0] == Err::<(Seq<char>, Seq<char>), (bool, Seq<char>)>((line_failed, message)));
    if !line_failed {
        assert(told + envfile::hint(false) =~= told);
    }
}

/// A variable is taken over as it was read, unless its value cannot be given to a
/// process or its name was declared before.
pub proof fn law_variables_are_taken_over_one_by_one(
    path: Seq<u8>,
    name: Seq<char>,
    value: Seq<char>,
    rest: Seq<ItemView>,
    vars: Map<Seq<char>, Seq<char>>,
)
    ensures
        envfile::collected_onto(path, Seq::empty(), vars) == Ok::<
            Map<Seq<char>, Seq<char>>,
            Seq<char>,
        >(vars),
        ({
            let items = seq![Ok::<(Seq<char>, Seq<char>), (bool, Seq<char>)>((name, value))] + rest;
            let left = envfile::collected_onto(path, items, vars);
            &&& value.contains('\0') ==> left == Err::<Map<Seq<char>, Seq<char>>, Seq<char>>(
                "env-file "@ + paths::shown(path) + ": the value of "@ + text::debug_str(name)
                    + " contains a NUL byte"@,
            )
            &&& !value.contains('\0') && vars.contains_key(name) ==> left == Err::<
                Map<Seq<char>, Seq<char>>,
                Seq<char>,
            >(
                "env-file "@ + paths::shown(path) + ": "@ + text::debug_str(name)
                    + " is declared more than once; keep a single line"@,
            )
            &&& !value.contains('\0') && !vars.contains_key(name) ==> left
                == envfile::collected_onto(path, rest, vars.insert(name, value))
        }),
        envfile::collected(path, rest) == envfile::collected_onto(path, rest, Map::empty()),
{
    let items = seq![Ok::<(Seq<char>, Seq<char>), (bool, Seq<char>)>((name, value))] + rest;
    assert(items[0] == Ok::<(Seq<char>, Seq<char>), (bool, Seq<char>)>((name, value)));
    assert(items.skip(1) =~= rest);
}

/// A file that cannot be opened and one that cannot be read are told with the
/// reason; any other gives what its lines declare.
pub proof fn law_unreadable_files_are_told_with_the_reason(
    path: Seq<u8>,
    reason: String,
    bytes: Vec<u8>,
    items: Seq<ItemView>,
)
    ensures
        envfile::sourced(path, EnvSource::Unopened(reason), items) == Err::<
            Map<Seq<char>, Seq<char>>,
            Seq<char>,
        >("cannot read env-file "@ + paths::shown(path) + ": "@ + reason@),
        envfile::sourced(path, EnvSource::Broken(reason), items) == Err::<
            Map<Seq<char>, Seq<char>>,
            Seq<char>,
        >("cannot parse env-file "@ + paths::shown(path) + ": "@ + reason@),
        envfile::sourced(path, EnvSource::Bytes(bytes), items) == envfile::collected(path, items),
{
}

/// What was read is seen as it is: variables, failures, and what became of them.
pub proof fn law_read_lines_are_seen_as_they_are(
    items: Seq<Item>,
    i: int,
    r: Result<EnvMap, String>,
)
    ensures
        envfile::plains(items).len() == items.len(),
        0 <= i < items.len() ==> match items[i] {
            Ok(pair) => envfile::plains(items)[i] == Ok::<
                (Seq<char>, Seq<char>),
                (bool, Seq<char>),
            >((pair.0@, pair.1@)),
            Err(failure) => envfile::plains(items)[i] == Err::<
                (Seq<char>, Seq<char>),
                (bool, Seq<char>),
            >((failure.0, failure.1@)),
        },
        match r {
            Ok(vars) => envfile::outcome(r) == Ok::<Map<Seq<char>, Seq<char>>, Seq<char>>(vars@),
            Err(message) => envfile::outcome(r) == Err::<Map<Seq<char>, Seq<char>>, Seq<char>>(
                message@,
            ),
        },
{
}

} // verus!
