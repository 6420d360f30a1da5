//! What holds of every configuration.

use vstd::prelude::*;
use vstd::utf8::*;

use crate::config;
use crate::config::{Config, ProbeTarget, Service};
use crate::paths;
use crate::scan;
use crate::text;
use crate::util;

verus! {

// ------------------------------------------------------------ command display
/// A hexadecimal digit's value.
pub open spec fn hex_value(c: char) -> Option<int> {
    if '0' <= c <= '9' {
        Some(c as int - 48)
    } else if 'A' <= c <= 'F' {
        Some(c as int - 55)
    } else if 'a' <= c <= 'f' {
        Some(c as int - 87)
    } else {
        None
    }
}

/// The character that `\uXXXX` names.
pub open spec fn code_point(a: char, b: char, c: char, d: char) -> Option<char> {
    match (hex_value(a), hex_value(b), hex_value(c), hex_value(d)) {
        (Some(a), Some(b), Some(c), Some(d)) => {
            let n = 4096 * a + 256 * b + 16 * c + d;
            if 0xd800 <= n <= 0xdfff {
                None
            } else {
                Some(n as char)
            }
        },
        _ => None,
    }
}

/// The character that a backslash and `c` stand for.
pub open spec fn short_escape(c: char) -> Option<char> {
    if c == '"' || c == '\\' {
        Some(c)
    } else if c == 'n' {
        Some('\n')
    } else if c == 'r' {
        Some('\r')
    } else if c == 't' {
        Some('\t')
    } else {
        None
    }
}

/// `c` before what a string reads on as.
pub open spec fn before(c: char, rest: Option<(Seq<char>, Seq<char>)>) -> Option<
    (Seq<char>, Seq<char>),
> {
    match rest {
        Some((read, left)) => Some((seq![c] + read, left)),
        None => None,
    }
}

/// Read a TOML basic string whose opening quote is behind: its characters and
/// what stands after the closing quote.
pub open spec fn read_string(s: Seq<char>) -> Option<(Seq<char>, Seq<char>)>
    decreases s.len(),
{
    if s.len() == 0 {
        None
    } else if s[0] == '"' {
        Some((Seq::empty(), s.skip(1)))
    } else if s[0] != '\\' {
        before(s[0], read_string(s.skip(1)))
    } else if s.len() >= 6 && s[1] == 'u' {
        match code_point(s[2], s[3], s[4], s[5]) {
            Some(c) => before(c, read_string(s.skip(6))),
            None => None,
        }
    } else if s.len() >= 2 {
        match short_escape(s[1]) {
            Some(c) => before(c, read_string(s.skip(2))),
            None => None,
        }
    } else {
        None
    }
}

/// Read the rest of a TOML array of strings, behind one of its items.
pub open spec fn read_more(s: Seq<char>) -> Option<Seq<Seq<char>>>
    decreases s.len(),
{
    if s == seq![']'] {
        Some(Seq::empty())
    } else if s.len() >= 3 && s[0] == ',' && s[1] == ' ' && s[2] == '"' {
        match read_string(s.skip(3)) {
            Some((item, left)) => if left.len() < s.len() {
                match read_more(left) {
                    Some(items) => Some(seq![item] + items),
                    None => None,
                }
            } else {
                None
            },
            None => None,
        }
    } else {
        None
    }
}

/// Read a TOML array of strings.
pub open spec fn read_array(s: Seq<char>) -> Option<Seq<Seq<char>>> {
    if s == seq!['[', ']'] {
        Some(Seq::empty())
    } else if s.len() >= 2 && s[0] == '[' && s[1] == '"' {
        match read_string(s.skip(2)) {
            Some((item, left)) => match read_more(left) {
                Some(items) => Some(seq![item] + items),
                None => None,
            },
            None => None,
        }
    } else {
        None
    }
}

proof fn lemma_escaped_front(s: Seq<char>)
    requires
        s.len() > 0,
    ensures
        config::escaped(s) == config::escaped_char(s[0]) + config::escaped(s.skip(1)),
    decreases s.len(),
{
    if s.len() == 1 {
        assert(s.drop_last() =~= Seq::empty());
        assert(s.skip(1) =~= Seq::empty());
        assert(config::escaped(s) =~= config::escaped_char(s[0]) + config::escaped(s.skip(1)));
    } else {
        lemma_escaped_front(s.drop_last());
        assert(s.drop_last().skip(1) =~= s.skip(1).drop_last());
        assert(config::escaped(s) =~= config::escaped_char(s[0]) + config::escaped(s.skip(1)));
    }
}

proof fn lemma_control_code(c: char)
    requires
        text::control(c),
    ensures
        code_point(
            '0',
            '0',
            config::upper_hex(c as int / 16),
            config::upper_hex(c as int % 16),
        ) == Some(c),
{
    let code = c as int;
    assert(code >= 0);
    assert(code <= 0x9f);
    let high = code / 16;
    let low = code % 16;
    assert(code == 16 * high + low);
    assert(0 <= high < 10 && 0 <= low < 16);
    assert(hex_value(config::upper_hex(high)) == Some(high));
    assert(hex_value(config::upper_hex(low)) == Some(low));
}

proof fn lemma_read_string(s: Seq<char>, rest: Seq<char>)
    ensures
        read_string(config::escaped(s) + seq!['"'] + rest) == Some((s, rest)),
    decreases s.len(),
{
    let whole = config::escaped(s) + seq!['"'] + rest;
    if s.len() == 0 {
        assert(whole.skip(1) =~= rest);
        assert(s =~= Seq::empty());
    } else {
        let c = s[0];
        let head = config::escaped_char(c);
        lemma_escaped_front(s);
        lemma_read_string(s.skip(1), rest);
        let tail = config::escaped(s.skip(1)) + seq!['"'] + rest;
        assert(whole =~= head + tail);
        assert(whole.skip(head.len() as int) =~= tail);
        assert(seq![c] + s.skip(1) =~= s);
        if head.len() == 6 {
            assert(whole[2] == '0' && whole[3] == '0');
            assert(whole[4] == config::upper_hex(c as int / 16));
            assert(whole[5] == config::upper_hex(c as int % 16));
            lemma_control_code(c);
        } else if head.len() == 2 {
            assert(whole[0] == '\\' && whole[1] == head[1]);
        } else {
            assert(whole[0] == c);
        }
    }
}

/// The items of an array behind its first.
spec fn more_items(args: Seq<Seq<char>>) -> Seq<char>
    decreases args.len(),
{
    if args.len() == 0 {
        Seq::empty()
    } else {
        seq![',', ' '] + config::quoted(args[0]) + more_items(args.skip(1))
    }
}

proof fn lemma_more_items_back(args: Seq<Seq<char>>)
    requires
        args.len() > 0,
    ensures
        more_items(args) == more_items(args.drop_last()) + seq![',', ' '] + config::quoted(
            args.last(),
        ),
    decreases args.len(),
{
    if args.len() == 1 {
        assert(args.skip(1) =~= Seq::empty());
        assert(args.drop_last() =~= Seq::empty());
        assert(more_items(args) =~= more_items(args.drop_last()) + seq![',', ' '] + config::quoted(
            args.last(),
        ));
    } else {
        lemma_more_items_back(args.skip(1));
        assert(args.skip(1).drop_last() =~= args.drop_last().skip(1));
        assert(more_items(args) =~= more_items(args.drop_last()) + seq![',', ' '] + config::quoted(
            args.last(),
        ));
    }
}

proof fn lemma_items_front(args: Seq<Seq<char>>)
    requires
        args.len() > 0,
    ensures
        config::array_items(args) == config::quoted(args[0]) + more_items(args.skip(1)),
    decreases args.len(),
{
    if args.len() == 1 {
        assert(args.skip(1) =~= Seq::empty());
        assert(config::array_items(args) =~= config::quoted(args[0]) + more_items(args.skip(1)));
    } else {
        lemma_items_front(args.drop_last());
        lemma_more_items_back(args.skip(1));
        assert(args.skip(1).drop_last() =~= args.drop_last().skip(1));
        assert(config::array_items(args) =~= config::quoted(args[0]) + more_items(args.skip(1)));
    }
}

proof fn lemma_read_more(args: Seq<Seq<char>>)
    ensures
        read_more(more_items(args) + seq![']']) == Some(args),
    decreases args.len(),
{
    let whole = more_items(args) + seq![']'];
    if args.len() == 0 {
        assert(whole =~= seq![']']);
        assert(args =~= Seq::empty());
    } else {
        let left = more_items(args.skip(1)) + seq![']'];
        lemma_read_more(args.skip(1));
        lemma_read_string(args[0], left);
        assert(whole.len() >= 3 && whole[0] == ',' && whole[1] == ' ' && whole[2] == '"');
        assert(whole.skip(3) =~= config::escaped(args[0]) + seq!['"'] + left);
        assert(seq![args[0]] + args.skip(1) =~= args);
    }
}

/// A displayed command reads back, as TOML, to the arguments it shows, whatever
/// characters they hold.
pub proof fn law_displayed_command_reads_back(args: Seq<Seq<char>>)
    ensures
        read_array(config::array_literal(args)) == Some(args),
{
    let whole = config::array_literal(args);
    if args.len() == 0 {
        assert(whole =~= seq!['[', ']']);
        assert(args =~= Seq::empty());
    } else {
        lemma_items_front(args);
        let left = more_items(args.skip(1)) + seq![']'];
        lemma_read_string(args[0], left);
        lemma_read_more(args.skip(1));
        assert(whole.skip(2) =~= config::escaped(args[0]) + seq!['"'] + left);
        assert(whole[0] == '[' && whole[1] == '"');
        assert(seq![args[0]] + args.skip(1) =~= args);
    }
}

/// Two commands are displayed alike only when they are the same arguments.
pub proof fn law_displayed_commands_are_unambiguous(a: Seq<Seq<char>>, b: Seq<Seq<char>>)
    requires
        config::array_literal(a) == config::array_literal(b),
    ensures
        a == b,
{
    law_displayed_command_reads_back(a);
    law_displayed_command_reads_back(b);
}

// ----------------------------------------------------------------- validation
/// What every service of an accepted configuration is.
pub open spec fn sound(service: Service) -> bool {
    &&& service.name@.len() > 0
    &&& text::ascii_alphanumeric(service.name@[0])
    &&& forall|i: int|
        0 <= i < service.name@.len() ==> config::name_char(#[trigger] service.name@[i])
    &&& service.run_cmd.0@.len() > 0 && !scan::blank(service.run_cmd.0@[0]@)
    &&& service.build_cmd matches Some(cmd) ==> cmd.0@.len() > 0 && !scan::blank(cmd.0@[0]@)
    &&& service.env_file matches Some(file) ==> !scan::blank(file@)
    &&& service.probe matches Some(probe) ==> {
        &&& probe.http_get is Some <==> probe.tcp_connect is None
        &&& probe.failure_threshold > 0
        &&& probe.period_seconds > 0
        &&& probe.timeout_seconds > 0
    }
    &&& match config::service_target(service) {
        ProbeTarget::Http { scheme, host, port, .. } => scheme@ == "http"@ && port > 0
            && !scan::blank(host@),
        ProbeTarget::Tcp { host, port } => port > 0 && !scan::blank(host@),
        ProbeTarget::NoProbe => service.probe is None,
    }
}

proof fn lemma_first_bad(name: Seq<char>)
    ensures
        first_good(name, config::first_bad(name) as int),
    decreases name.len(),
{
    if name.len() > 0 && config::name_char(name[0]) {
        lemma_first_bad(name.skip(1));
        assert forall|i: int| 0 <= i < config::first_bad(name) implies config::name_char(
            #[trigger] name[i],
        ) by {
            if i > 0 {
                assert(name.skip(1)[i - 1] == name[i]);
            }
        }
    }
}

spec fn first_good(name: Seq<char>, n: int) -> bool {
    &&& 0 <= n <= name.len()
    &&& forall|i: int| 0 <= i < n ==> config::name_char(#[trigger] name[i])
    &&& n < name.len() ==> !config::name_char(name[n])
}

proof fn lemma_services_problem(services: Seq<Service>, i: int)
    requires
        config::services_problem(services) is None,
        0 <= i < services.len(),
    ensures
        config::service_problem(services[i]) is None,
    decreases services.len(),
{
    if i > 0 {
        assert(services.skip(1)[i - 1] == services[i]);
        lemma_services_problem(services.skip(1), i - 1);
    }
}

proof fn lemma_repeated_name(services: Seq<Service>, from: int, i: int, j: int)
    requires
        config::repeated_name(services, from) is None,
        0 <= from <= j < services.len(),
        0 <= i < j,
    ensures
        services[i].name@ != services[j].name@,
    decreases j - from,
{
    if from < j {
        lemma_repeated_name(services, from + 1, i, j);
    } else {
        let earlier = config::names(services.take(j));
        assert(earlier[i] == services[i].name@);
        if services[i].name@ == services[j].name@ {
            assert(earlier.contains(services[j].name@));
        }
    }
}

/// An accepted configuration declares at least one service, each of them sound,
/// and no two of one name.
pub proof fn law_accepted_configurations_are_sound(config: Config)
    requires
        config::config_problem(config) is None,
    ensures
        config.services@.len() > 0,
        forall|i: int| 0 <= i < config.services@.len() ==> sound(#[trigger] config.services@[i]),
        forall|i: int, j: int|
            0 <= i < j < config.services@.len() ==> (#[trigger] config.services@[i]).name@ != (
            #[trigger] config.services@[j]).name@,
{
    let services = config.services@;
    assert forall|i: int| 0 <= i < services.len() implies sound(#[trigger] services[i]) by {
        lemma_services_problem(services, i);
        lemma_first_bad(services[i].name@);
    }
    assert forall|i: int, j: int| 0 <= i < j < services.len() implies (
    #[trigger] services[i]).name@ != (#[trigger] services[j]).name@ by {
        lemma_repeated_name(services, 0, i, j);
    }
}

proof fn lemma_good_name(name: Seq<char>)
    requires
        forall|i: int| 0 <= i < name.len() ==> config::name_char(#[trigger] name[i]),
    ensures
        config::first_bad(name) == name.len(),
    decreases name.len(),
{
    if name.len() > 0 {
        assert(config::name_char(name[0]));
        assert forall|i: int| 0 <= i < name.skip(1).len() implies config::name_char(
            #[trigger] name.skip(1)[i],
        ) by {
            assert(config::name_char(name[i + 1]));
        }
        lemma_good_name(name.skip(1));
    }
}

proof fn lemma_no_problem(services: Seq<Service>)
    requires
        forall|i: int|
            0 <= i < services.len() ==> config::service_problem(#[trigger] services[i]) is None,
    ensures
        config::services_problem(services) is None,
    decreases services.len(),
{
    if services.len() > 0 {
        assert(config::service_problem(services[0]) is None);
        assert forall|i: int| 0 <= i < services.skip(1).len() implies config::service_problem(
            #[trigger] services.skip(1)[i],
        ) is None by {
            assert(config::service_problem(services[i + 1]) is None);
        }
        lemma_no_problem(services.skip(1));
    }
}

proof fn lemma_no_repeat(services: Seq<Service>, from: int)
    requires
        0 <= from <= services.len(),
        forall|i: int, j: int|
            0 <= i < j < services.len() ==> (#[trigger] services[i]).name@ != (
            #[trigger] services[j]).name@,
    ensures
        config::repeated_name(services, from) is None,
    decreases services.len() - from,
{
    if from < services.len() {
        let earlier = config::names(services.take(from));
        if earlier.contains(services[from].name@) {
            let i = choose|i: int| 0 <= i < earlier.len() && earlier[i] == services[from].name@;
            assert(services[i].name@ == services[from].name@);
        }
        lemma_no_repeat(services, from + 1);
    }
}

/// Every configuration that declares a service, each of them sound and no two of
/// one name, is accepted.
pub proof fn law_sound_configurations_are_accepted(config: Config)
    requires
        config.services@.len() > 0,
        forall|i: int| 0 <= i < config.services@.len() ==> sound(#[trigger] config.services@[i]),
        forall|i: int, j: int|
            0 <= i < j < config.services@.len() ==> (#[trigger] config.services@[i]).name@ != (
            #[trigger] config.services@[j]).name@,
    ensures
        config::config_problem(config) is None,
{
    let services = config.services@;
    assert forall|i: int| 0 <= i < services.len() implies config::service_problem(
        #[trigger] services[i],
    ) is None by {
        assert(sound(services[i]));
        lemma_good_name(services[i].name@);
    }
    lemma_no_problem(services);
    lemma_no_repeat(services, 0);
}

/// In an accepted configuration every service is found by its own name.
pub proof fn law_accepted_services_are_found_by_name(config: Config, i: int)
    requires
        config::config_problem(config) is None,
        0 <= i < config.services@.len(),
    ensures
        config::service_index(config.services@, config.services@[i].name@) == Some(i),
{
    law_accepted_configurations_are_sound(config);
    config::lemma_service_index(config.services@, config.services@[i].name@);
}

// ---------------------------------------------------------------- environment
/// The `env` table wins over the env-file; what it does not set comes from the
/// file.
pub proof fn law_env_table_wins_over_the_file(
    service: Service,
    file: Map<Seq<char>, Seq<char>>,
    name: Seq<char>,
)
    requires
        service.env_file is Some,
    ensures
        config::spawn_vars(service, Ok(file)) matches Ok(vars) && {
            &&& vars.contains_key(name) <==> service.env@.contains_key(name) || file.contains_key(
                name,
            )
            &&& service.env@.contains_key(name) ==> vars[name] == service.env@[name]
            &&& !service.env@.contains_key(name) && file.contains_key(name) ==> vars[name]
                == file[name]
        },
{
}

// ---------------------------------------------------------------- fingerprint
/// A configuration that declares no env-file has the revision of its raw text.
pub proof fn law_plain_revision_is_the_raw_text(
    root: Seq<u8>,
    raw: Seq<char>,
    services: Seq<Service>,
    files: Seq<Option<Seq<u8>>>,
)
    requires
        files.len() == services.len(),
        forall|i: int| 0 <= i < services.len() ==> (#[trigger] services[i]).env_file is None,
    ensures
        config::revision(root, raw, services, files) == encode_utf8(raw),
    decreases services.len(),
{
    if services.len() > 0 {
        assert forall|i: int| 0 <= i < services.drop_last().len() implies (
        #[trigger] services.drop_last()[i]).env_file is None by {
            assert(services[i].env_file is None);
        }
        law_plain_revision_is_the_raw_text(root, raw, services.drop_last(), files.drop_last());
        assert(services[services.len() - 1].env_file is None);
        assert(config::revision(root, raw, services, files) =~= encode_utf8(raw));
    }
}

/// Are the two the same length, and different at one place only?
pub open spec fn one_byte_apart(a: Seq<u8>, b: Seq<u8>) -> bool {
    a.len() == b.len() && exists|at: int|
        0 <= at < a.len() && a[at] != b[at] && b == #[trigger] a.update(at, b[at])
}

proof fn lemma_apart_inside(head: Seq<u8>, a: Seq<u8>, b: Seq<u8>, tail: Seq<u8>)
    requires
        one_byte_apart(a, b),
    ensures
        one_byte_apart(head + a + tail, head + b + tail),
{
    let at = choose|at: int|
        0 <= at < a.len() && a[at] != b[at] && b == #[trigger] a.update(at, b[at]);
    let x = head + a + tail;
    let y = head + b + tail;
    let k = head.len() + at;
    assert(x[k] == a[at] && y[k] == b[at]);
    assert(y =~= x.update(k, y[k]));
}

proof fn lemma_revision_apart(
    root: Seq<u8>,
    raw: Seq<char>,
    services: Seq<Service>,
    files: Seq<Option<Seq<u8>>>,
    which: int,
    edited: Seq<u8>,
)
    requires
        files.len() == services.len(),
        0 <= which < services.len(),
        services[which].env_file is Some,
        files[which] is Some,
        one_byte_apart(files[which]->Some_0, edited),
    ensures
        one_byte_apart(
            config::revision(root, raw, services, files),
            config::revision(root, raw, services, files.update(which, Some(edited))),
        ),
    decreases services.len(),
{
    let after = files.update(which, Some(edited));
    let last = services.len() - 1;
    if which == last {
        assert(after.drop_last() =~= files.drop_last());
        let service = services[which];
        let head = config::revision(root, raw, services.drop_last(), files.drop_last()) + seq![0u8]
            + encode_utf8(service.name@) + seq![0u8] + config::env_path(service, root) + seq![0u8];
        let none = Seq::<u8>::empty();
        lemma_apart_inside(head, files[which]->Some_0, edited, none);
        assert(head + files[which]->Some_0 + none =~= config::revision(
            root,
            raw,
            services,
            files,
        ));
        assert(head + edited + none =~= config::revision(root, raw, services, after));
    } else {
        assert(after.drop_last() =~= files.drop_last().update(which, Some(edited)));
        lemma_revision_apart(
            root,
            raw,
            services.drop_last(),
            files.drop_last(),
            which,
            edited,
        );
        let tail = config::env_part(root, services[last], files[last]);
        let none = Seq::<u8>::empty();
        let a = config::revision(root, raw, services.drop_last(), files.drop_last());
        let b = config::revision(root, raw, services.drop_last(), after.drop_last());
        lemma_apart_inside(none, a, b, tail);
        assert(none + a + tail =~= a + tail);
        assert(none + b + tail =~= b + tail);
    }
}

/// Editing one byte of an env-file changes the fingerprint.
pub proof fn law_editing_an_env_file_changes_the_fingerprint(
    root: Seq<u8>,
    raw: Seq<char>,
    services: Seq<Service>,
    files: Seq<Option<Seq<u8>>>,
    which: int,
    edited: Seq<u8>,
)
    requires
        files.len() == services.len(),
        0 <= which < services.len(),
        services[which].env_file is Some,
        files[which] matches Some(held) && one_byte_apart(held, edited),
    ensures
        config::fingerprint_text(config::revision(root, raw, services, files))
            != config::fingerprint_text(
            config::revision(root, raw, services, files.update(which, Some(edited))),
        ),
{
    lemma_revision_apart(root, raw, services, files, which, edited);
    lemma_apart_fingerprints(
        config::revision(root, raw, services, files),
        config::revision(root, raw, services, files.update(which, Some(edited))),
    );
}

/// Editing one byte of an `agproc.toml` that declares the same services changes
/// the fingerprint.
pub proof fn law_editing_the_config_changes_the_fingerprint(
    root: Seq<u8>,
    raw: Seq<char>,
    edited: Seq<char>,
    services: Seq<Service>,
    files: Seq<Option<Seq<u8>>>,
)
    requires
        files.len() == services.len(),
        one_byte_apart(encode_utf8(raw), encode_utf8(edited)),
    ensures
        config::fingerprint_text(config::revision(root, raw, services, files))
            != config::fingerprint_text(config::revision(root, edited, services, files)),
{
    lemma_raw_apart(root, raw, edited, services, files);
    lemma_apart_fingerprints(
        config::revision(root, raw, services, files),
        config::revision(root, edited, services, files),
    );
}

proof fn lemma_raw_apart(
    root: Seq<u8>,
    raw: Seq<char>,
    edited: Seq<char>,
    services: Seq<Service>,
    files: Seq<Option<Seq<u8>>>,
)
    requires
        files.len() == services.len(),
        one_byte_apart(encode_utf8(raw), encode_utf8(edited)),
    ensures
        one_byte_apart(
            config::revision(root, raw, services, files),
            config::revision(root, edited, services, files),
        ),
    decreases services.len(),
{
    if services.len() > 0 {
        lemma_raw_apart(root, raw, edited, services.drop_last(), files.drop_last());
        let tail = config::env_part(root, services.last(), files.last());
        let none = Seq::<u8>::empty();
        let a = config::revision(root, raw, services.drop_last(), files.drop_last());
        let b = config::revision(root, edited, services.drop_last(), files.drop_last());
        lemma_apart_inside(none, a, b, tail);
        assert(none + a + tail =~= a + tail);
        assert(none + b + tail =~= b + tail);
    }
}

proof fn lemma_apart_fingerprints(a: Seq<u8>, b: Seq<u8>)
    requires
        one_byte_apart(a, b),
    ensures
        config::fingerprint_text(a) != config::fingerprint_text(b),
{
    let at = choose|at: int|
        0 <= at < a.len() && a[at] != b[at] && b == #[trigger] a.update(at, b[at]);
    util::law_single_byte_edit_changes_the_hash(a, b, at);
    let x = config::fingerprint_text(a);
    let y = config::fingerprint_text(b);
    if x == y {
        let n = "fnv1a64:"@.len() as int;
        assert(x.skip(n) =~= util::hex(util::fnv(a) as nat, 16));
        assert(y.skip(n) =~= util::hex(util::fnv(b) as nat, 16));
        reveal_with_fuel(util::hex_span, 17);
        util::lemma_hex_injective(util::fnv(a) as nat, util::fnv(b) as nat, 16);
    }
}

// -------------------------------------------------------------- runtime files
proof fn lemma_file_name(base: Seq<u8>, name: Seq<char>)
    requires
        name.len() > 0,
        text::ascii_alphanumeric(name[0]),
    ensures
        paths::path_join(base, encode_utf8(name)) == paths::path_join(base, Seq::empty())
            + encode_utf8(name),
{
    let leaf = encode_utf8(name);
    encode_utf8_first_scalar(name);
    assert(leaf.len() > 0 && leaf[0] != 47) by {
        let first = encode_scalar(name[0] as u32);
        assert(leaf =~= first + encode_utf8(name.drop_first()));
        let v = name[0] as u32;
        assert(has_width_1_encoding(v));
        assert(first.len() == 1);
        assert(v & 0x7f == v) by (bit_vector)
            requires
                v <= 0x7f,
        ;
        assert(leaf[0] == first[0]);
    }
    let none = Seq::<u8>::empty();
    assert(paths::path_join(base, leaf) =~= paths::path_join(base, none) + leaf);
}

/// Services of different accepted names share no file of a directory under
/// `.agproc/`, and no two files of one service are the same.
pub proof fn law_runtime_files_are_distinct(
    root: Seq<u8>,
    dir: Seq<char>,
    a: Seq<char>,
    a_suffix: Seq<char>,
    b: Seq<char>,
    b_suffix: Seq<char>,
)
    requires
        config::name_problem(a) is None,
        config::name_problem(b) is None,
        a_suffix == b_suffix ==> a != b,
        a_suffix != b_suffix ==> unlike(a_suffix, b_suffix),
    ensures
        paths::runtime_file(root, dir, a, a_suffix) != paths::runtime_file(root, dir, b, b_suffix),
{
    let base = paths::runtime_subdir(root, dir);
    let x = a + a_suffix;
    let y = b + b_suffix;
    lemma_file_name(base, x);
    lemma_file_name(base, y);
    if paths::path_join(base, encode_utf8(x)) == paths::path_join(base, encode_utf8(y)) {
        let prefix = paths::path_join(base, Seq::empty());
        assert((prefix + encode_utf8(x)).skip(prefix.len() as int) =~= encode_utf8(x));
        assert((prefix + encode_utf8(y)).skip(prefix.len() as int) =~= encode_utf8(y));
        encode_utf8_decode_utf8(x);
        encode_utf8_decode_utf8(y);
        assert(x == y);
        if a_suffix == b_suffix {
            assert(a =~= x.take(a.len() as int));
            assert(b =~= y.take(b.len() as int));
        } else {
            let back = choose|back: int|
                0 < back <= a_suffix.len() && back <= b_suffix.len() && #[trigger] a_suffix[a_suffix.len()
                    - back] != b_suffix[b_suffix.len() - back];
            assert(x[x.len() - back] == a_suffix[a_suffix.len() - back]);
            assert(y[y.len() - back] == b_suffix[b_suffix.len() - back]);
        }
    }
}

/// Do the two suffixes differ at one distance from their ends?
pub open spec fn unlike(a: Seq<char>, b: Seq<char>) -> bool {
    exists|back: int|
        0 < back <= a.len() && back <= b.len() && #[trigger] a[a.len() - back] != b[b.len() - back]
}

/// The suffixes of the files that share a directory are unlike.
pub proof fn law_runtime_suffixes_are_unlike()
    ensures
        unlike(".stdout.log"@, ".stderr.log"@),
        unlike(".console.stdout"@, ".console.stderr"@),
        unlike(".json"@, ".stop-requested"@),
{
    reveal_strlit(".stdout.log");
    reveal_strlit(".stderr.log");
    reveal_strlit(".console.stdout");
    reveal_strlit(".console.stderr");
    reveal_strlit(".json");
    reveal_strlit(".stop-requested");
    let a = ".stdout.log"@;
    let b = ".stderr.log"@;
    assert(a[a.len() - 5] != b[b.len() - 5]);
    let c = ".console.stdout"@;
    let d = ".console.stderr"@;
    assert(c[c.len() - 1] != d[d.len() - 1]);
    let e = ".json"@;
    let f = ".stop-requested"@;
    assert(e[e.len() - 1] != f[f.len() - 1]);
}

} // verus!
