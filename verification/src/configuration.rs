//! The workspace configuration sent to Roslyn: fixed defaults (Razor
//! cohosting on) merged with the user's `lsp.roslyn-razor.settings`.

use vstd::prelude::*;
use crate::text::contains_char;
use crate::json::{
    lemma_find_key_first, JsonValue, Entries, entries_view, upsert, insert_entry, lookup, keys_unique,
    lemma_upsert_lookup_same, lemma_upsert_lookup_other, lemma_upsert_keeps_present,
    lemma_upsert_unique,
};
use crate::roslyn::Roslyn;

verus! {

/// The settings sent to Roslyn whatever the user configured.
pub open spec fn default_entries() -> Entries {
    seq![
        ("razor|language_server.cohosting_enabled"@, JsonValue::Bool(true)),
        ("csharp|code_lens.dotnet_enable_references_code_lens"@, JsonValue::Bool(false)),
        ("csharp|code_lens.dotnet_enable_tests_code_lens"@, JsonValue::Bool(false)),
        ("csharp|inlay_hints.dotnet_enable_inlay_hints_for_parameters"@, JsonValue::Bool(true)),
        ("csharp|inlay_hints.dotnet_enable_inlay_hints_for_literal_parameters"@, JsonValue::Bool(true)),
        ("csharp|inlay_hints.dotnet_enable_inlay_hints_for_indexer_parameters"@, JsonValue::Bool(true)),
        ("csharp|inlay_hints.dotnet_enable_inlay_hints_for_object_creation_parameters"@, JsonValue::Bool(true)),
        ("csharp|inlay_hints.dotnet_enable_inlay_hints_for_other_parameters"@, JsonValue::Bool(true)),
        ("csharp|inlay_hints.csharp_enable_inlay_hints_for_types"@, JsonValue::Bool(true)),
        ("csharp|inlay_hints.csharp_enable_inlay_hints_for_implicit_variable_types"@, JsonValue::Bool(true)),
        ("csharp|inlay_hints.csharp_enable_inlay_hints_for_lambda_parameter_types"@, JsonValue::Bool(true)),
        ("csharp|inlay_hints.csharp_enable_inlay_hints_for_implicit_object_creation"@, JsonValue::Bool(true)),
        ("csharp|inlay_hints.csharp_enable_inlay_hints_for_collection_expressions"@, JsonValue::Bool(true)),
    ]
}

/// Adds the entries of a `section|group` object as `section|group.<key>`,
/// in order.
pub open spec fn apply_group(acc: Entries, group: Seq<char>, nested: Entries) -> Entries
    decreases nested.len(),
{
    if nested.len() == 0 {
        acc
    } else {
        upsert(
            apply_group(acc, group, nested.drop_last()),
            group + seq!['.'] + nested.last().0,
            nested.last().1,
        )
    }
}

/// One top-level user setting: a key with `|` whose value is an object is
/// flattened into dotted keys; any other key with `|` is dropped; a key with
/// `.` (and no `|`) is taken as it is; any other key is dropped.
pub open spec fn apply_setting(acc: Entries, key: Seq<char>, value: JsonValue) -> Entries {
    if key.contains('|') {
        match value {
            JsonValue::Object(nested) => apply_group(acc, key, entries_view(nested@)),
            _ => acc,
        }
    } else if key.contains('.') {
        upsert(acc, key, value)
    } else {
        acc
    }
}

/// All top-level user settings, in iteration order.
pub open spec fn apply_settings(acc: Entries, settings: Entries) -> Entries
    decreases settings.len(),
{
    if settings.len() == 0 {
        acc
    } else {
        apply_setting(apply_settings(acc, settings.drop_last()), settings.last().0, settings.last().1)
    }
}

/// The configuration entries for the user settings `settings`: the defaults,
/// then each setting of an object in turn; anything but an object adds nothing.
pub open spec fn roslyn_entries(settings: JsonValue) -> Entries {
    match settings {
        JsonValue::Object(entries) => apply_settings(default_entries(), entries_view(entries@)),
        _ => default_entries(),
    }
}

/// Whether `value` is the object with the entries `expected`.
pub open spec fn is_object_with(value: JsonValue, expected: Entries) -> bool {
    match value {
        JsonValue::Object(entries) => entries_view(entries@) == expected,
        _ => false,
    }
}

fn push_default(v: &mut Vec<(String, JsonValue)>, key: &str, value: bool)
    ensures
        entries_view(final(v)@) == entries_view(old(v)@).push((key@, JsonValue::Bool(value))),
{
    v.push((String::from_str(key), JsonValue::Bool(value)));
    assert(entries_view(v@) =~= entries_view(old(v)@).push((key@, JsonValue::Bool(value))));
}

/// The defaults, as an entry list.
pub fn defaults() -> (r: Vec<(String, JsonValue)>)
    ensures
        entries_view(r@) == default_entries(),
{
    let mut v: Vec<(String, JsonValue)> = Vec::new();
    push_default(&mut v, "razor|language_server.cohosting_enabled", true);
    push_default(&mut v, "csharp|code_lens.dotnet_enable_references_code_lens", false);
    push_default(&mut v, "csharp|code_lens.dotnet_enable_tests_code_lens", false);
    push_default(&mut v, "csharp|inlay_hints.dotnet_enable_inlay_hints_for_parameters", true);
    push_default(&mut v, "csharp|inlay_hints.dotnet_enable_inlay_hints_for_literal_parameters", true);
    push_default(&mut v, "csharp|inlay_hints.dotnet_enable_inlay_hints_for_indexer_parameters", true);
    push_default(&mut v, "csharp|inlay_hints.dotnet_enable_inlay_hints_for_object_creation_parameters", true);
    push_default(&mut v, "csharp|inlay_hints.dotnet_enable_inlay_hints_for_other_parameters", true);
    push_default(&mut v, "csharp|inlay_hints.csharp_enable_inlay_hints_for_types", true);
    push_default(&mut v, "csharp|inlay_hints.csharp_enable_inlay_hints_for_implicit_variable_types", true);
    push_default(&mut v, "csharp|inlay_hints.csharp_enable_inlay_hints_for_lambda_parameter_types", true);
    push_default(&mut v, "csharp|inlay_hints.csharp_enable_inlay_hints_for_implicit_object_creation", true);
    push_default(&mut v, "csharp|inlay_hints.csharp_enable_inlay_hints_for_collection_expressions", true);
    assert(entries_view(v@) =~= default_entries());
    v
}

fn add_group(acc: &mut Vec<(String, JsonValue)>, group: &str, nested: Vec<(String, JsonValue)>)
    ensures
        entries_view(final(acc)@) == apply_group(entries_view(old(acc)@), group@, entries_view(nested@)),
{
    let ghost all = entries_view(nested@);
    let ghost start = entries_view(acc@);
    let mut rest = nested;
    let mut i: usize = 0;
    let n = rest.len();
    assert(all.take(0) =~= Seq::<(Seq<char>, JsonValue)>::empty());
    while rest.len() > 0
        invariant
            n == all.len(),
            i + rest.len() == n,
            entries_view(rest@) == all.skip(i as int),
            entries_view(acc@) == apply_group(start, group@, all.take(i as int)),
        decreases rest.len(),
    {
        let ghost before = rest@;
        let (k, value) = rest.remove(0);
        proof {
            assert(all.take(i + 1).drop_last() =~= all.take(i as int));
            assert(all[i as int] == entries_view(before)[0]);
            assert(rest@ =~= before.skip(1));
        }
        let mut key = String::from_str(group);
        key.append(".");
        key.append(k.as_str());
        proof {
            reveal_strlit(".");
            assert(key@ == group@ + seq!['.'] + all[i as int].0);
        }
        insert_entry(acc, key, value);
        proof {
            assert forall|j: int| 0 <= j < rest@.len() implies entries_view(rest@)[j] == all.skip(i + 1)[j] by {
                assert(entries_view(before)[j + 1] == all.skip(i as int)[j + 1]);
            }
            assert(entries_view(rest@) =~= all.skip(i + 1));
        }
        i = i + 1;
    }
    assert(all.take(n as int) =~= all);
}

fn add_setting(acc: &mut Vec<(String, JsonValue)>, key: String, value: JsonValue)
    ensures
        entries_view(final(acc)@) == apply_setting(entries_view(old(acc)@), key@, value),
{
    if contains_char(key.as_str(), '|') {
        match value {
            JsonValue::Object(nested) => add_group(acc, key.as_str(), nested),
            _ => {},
        }
    } else if contains_char(key.as_str(), '.') {
        insert_entry(acc, key, value);
    }
}

impl Roslyn {
    /// The configuration sent to Roslyn for the user settings `settings`
    /// (see [`roslyn_entries`]).
    pub fn transform_settings_for_roslyn(settings: JsonValue) -> (r: JsonValue)
        ensures
            is_object_with(r, roslyn_entries(settings)),
    {
        let mut acc = defaults();
        match settings {
            JsonValue::Object(entries) => {
                let ghost all = entries_view(entries@);
                let mut rest = entries;
                let mut i: usize = 0;
                let n = rest.len();
                assert(all.take(0) =~= Seq::<(Seq<char>, JsonValue)>::empty());
                while rest.len() > 0
                    invariant
                        n == all.len(),
                        i + rest.len() == n,
                        entries_view(rest@) == all.skip(i as int),
                        entries_view(acc@) == apply_settings(default_entries(), all.take(i as int)),
                    decreases rest.len(),
                {
                    let ghost before = rest@;
                    let (k, value) = rest.remove(0);
                    proof {
                        assert(all.take(i + 1).drop_last() =~= all.take(i as int));
                        assert(all[i as int] == entries_view(before)[0]);
                        assert(rest@ =~= before.skip(1));
                    }
                    add_setting(&mut acc, k, value);
                    proof {
                        assert forall|j: int| 0 <= j < rest@.len() implies entries_view(rest@)[j] == all.skip(i + 1)[j] by {
                            assert(entries_view(before)[j + 1] == all.skip(i as int)[j + 1]);
                        }
                        assert(entries_view(rest@) =~= all.skip(i + 1));
                    }
                    i = i + 1;
                }
                assert(all.take(n as int) =~= all);
                JsonValue::Object(acc)
            },
            _ => JsonValue::Object(acc),
        }
    }

    /// The workspace configuration for Roslyn, given the user's
    /// `lsp.roslyn-razor.settings` if any: always present, with Razor
    /// cohosting on unless the user turns it off.
    pub fn configuration_options(settings: Option<JsonValue>) -> (r: Result<Option<JsonValue>, String>)
        ensures
            match r {
                Ok(Some(v)) => is_object_with(
                    v,
                    roslyn_entries(
                        match settings {
                            Some(s) => s,
                            None => JsonValue::Null,
                        },
                    ),
                ),
                _ => false,
            },
    {
        let s = match settings {
            Some(s) => s,
            None => JsonValue::Null,
        };
        Ok(Some(Self::transform_settings_for_roslyn(s)))
    }
}

/// Whether the top-level user setting `(key, value)` writes the
/// configuration key `k`.
pub open spec fn setting_writes(key: Seq<char>, value: JsonValue, k: Seq<char>) -> bool {
    if key.contains('|') {
        match value {
            JsonValue::Object(nested) => exists|j: int|
                0 <= j < nested@.len() && key + seq!['.'] + (#[trigger] nested@[j]).0@ == k,
            _ => false,
        }
    } else if key.contains('.') {
        key == k
    } else {
        false
    }
}

/// Whether any of the user settings `settings` writes the configuration key `k`.
pub open spec fn settings_write(settings: Entries, k: Seq<char>) -> bool {
    exists|i: int| 0 <= i < settings.len() && setting_writes(#[trigger] settings[i].0, settings[i].1, k)
}

/// Whether the user settings value `settings` writes the configuration key `k`.
pub open spec fn user_writes(settings: JsonValue, k: Seq<char>) -> bool {
    match settings {
        JsonValue::Object(entries) => settings_write(entries_view(entries@), k),
        _ => false,
    }
}

proof fn lemma_group_other(acc: Entries, group: Seq<char>, nested: Entries, k: Seq<char>)
    requires
        forall|j: int| 0 <= j < nested.len() ==> group + seq!['.'] + (#[trigger] nested[j]).0 != k,
    ensures
        lookup(apply_group(acc, group, nested), k) == lookup(acc, k),
    decreases nested.len(),
{
    if nested.len() > 0 {
        let init = nested.drop_last();
        assert forall|j: int| 0 <= j < init.len() implies group + seq!['.'] + (#[trigger] init[j]).0 != k by {
            assert(init[j] == nested[j]);
        }
        lemma_group_other(acc, group, init, k);
        assert(nested.last() == nested[nested.len() - 1]);
        lemma_upsert_lookup_other(apply_group(acc, group, init), group + seq!['.'] + nested.last().0, nested.last().1, k);
    }
}

proof fn lemma_group_present(acc: Entries, group: Seq<char>, nested: Entries, k: Seq<char>)
    requires
        lookup(acc, k) is Some,
    ensures
        lookup(apply_group(acc, group, nested), k) is Some,
    decreases nested.len(),
{
    if nested.len() > 0 {
        lemma_group_present(acc, group, nested.drop_last(), k);
        lemma_upsert_keeps_present(apply_group(acc, group, nested.drop_last()), group + seq!['.'] + nested.last().0, nested.last().1, k);
    }
}

proof fn lemma_group_unique(acc: Entries, group: Seq<char>, nested: Entries)
    requires
        keys_unique(acc),
    ensures
        keys_unique(apply_group(acc, group, nested)),
    decreases nested.len(),
{
    if nested.len() > 0 {
        lemma_group_unique(acc, group, nested.drop_last());
        lemma_upsert_unique(apply_group(acc, group, nested.drop_last()), group + seq!['.'] + nested.last().0, nested.last().1);
    }
}

proof fn lemma_settings_other(acc: Entries, settings: Entries, k: Seq<char>)
    requires
        !settings_write(settings, k),
    ensures
        lookup(apply_settings(acc, settings), k) == lookup(acc, k),
    decreases settings.len(),
{
    if settings.len() > 0 {
        let init = settings.drop_last();
        assert(!settings_write(init, k)) by {
            if settings_write(init, k) {
                let i = choose|i: int| 0 <= i < init.len() && setting_writes(#[trigger] init[i].0, init[i].1, k);
                assert(settings[i] == init[i]);
            }
        }
        lemma_settings_other(acc, init, k);
        let prev = apply_settings(acc, init);
        let (key, value) = settings.last();
        assert(settings.last() == settings[settings.len() - 1]);
        assert(!setting_writes(key, value, k));
        if key.contains('|') {
            match value {
                JsonValue::Object(nested) => {
                    let nv = entries_view(nested@);
                    assert forall|j: int| 0 <= j < nv.len() implies group_key(key, #[trigger] nv[j]) != k by {
                        assert(nv[j].0 == nested@[j].0@);
                    }
                    lemma_group_other(prev, key, nv, k);
                },
                _ => {},
            }
        } else if key.contains('.') {
            lemma_upsert_lookup_other(prev, key, value, k);
        }
    }
}

spec fn group_key(group: Seq<char>, e: (Seq<char>, JsonValue)) -> Seq<char> {
    group + seq!['.'] + e.0
}

proof fn lemma_settings_present(acc: Entries, settings: Entries, k: Seq<char>)
    requires
        lookup(acc, k) is Some,
    ensures
        lookup(apply_settings(acc, settings), k) is Some,
    decreases settings.len(),
{
    if settings.len() > 0 {
        lemma_settings_present(acc, settings.drop_last(), k);
        let prev = apply_settings(acc, settings.drop_last());
        let (key, value) = settings.last();
        if key.contains('|') {
            match value {
                JsonValue::Object(nested) => lemma_group_present(prev, key, entries_view(nested@), k),
                _ => {},
            }
        } else if key.contains('.') {
            lemma_upsert_keeps_present(prev, key, value, k);
        }
    }
}

proof fn lemma_settings_unique(acc: Entries, settings: Entries)
    requires
        keys_unique(acc),
    ensures
        keys_unique(apply_settings(acc, settings)),
    decreases settings.len(),
{
    if settings.len() > 0 {
        lemma_settings_unique(acc, settings.drop_last());
        let prev = apply_settings(acc, settings.drop_last());
        let (key, value) = settings.last();
        if key.contains('|') {
            match value {
                JsonValue::Object(nested) => lemma_group_unique(prev, key, entries_view(nested@)),
                _ => {},
            }
        } else if key.contains('.') {
            lemma_upsert_unique(prev, key, value);
        }
    }
}

/// The defaults name each key once.
pub proof fn lemma_defaults_unique()
    ensures
        keys_unique(default_entries()),
{
    reveal_strlit("razor|language_server.cohosting_enabled");
    reveal_strlit("csharp|code_lens.dotnet_enable_references_code_lens");
    reveal_strlit("csharp|code_lens.dotnet_enable_tests_code_lens");
    reveal_strlit("csharp|inlay_hints.dotnet_enable_inlay_hints_for_parameters");
    reveal_strlit("csharp|inlay_hints.dotnet_enable_inlay_hints_for_literal_parameters");
    reveal_strlit("csharp|inlay_hints.dotnet_enable_inlay_hints_for_indexer_parameters");
    reveal_strlit("csharp|inlay_hints.dotnet_enable_inlay_hints_for_object_creation_parameters");
    reveal_strlit("csharp|inlay_hints.dotnet_enable_inlay_hints_for_other_parameters");
    reveal_strlit("csharp|inlay_hints.csharp_enable_inlay_hints_for_types");
    reveal_strlit("csharp|inlay_hints.csharp_enable_inlay_hints_for_implicit_variable_types");
    reveal_strlit("csharp|inlay_hints.csharp_enable_inlay_hints_for_lambda_parameter_types");
    reveal_strlit("csharp|inlay_hints.csharp_enable_inlay_hints_for_implicit_object_creation");
    reveal_strlit("csharp|inlay_hints.csharp_enable_inlay_hints_for_collection_expressions");
    let d = default_entries();
    assert(d[4].0[49] != d[5].0[49]);
    assert(d[10].0[49] != d[12].0[49]);
    assert forall|i: int, j: int| 0 <= i < d.len() && 0 <= j < d.len() && i != j implies d[i].0 != d[j].0 by {
        if (i == 4 && j == 5) || (i == 5 && j == 4) {
            assert(d[4].0[49] != d[5].0[49]);
        } else if (i == 10 && j == 12) || (i == 12 && j == 10) {
            assert(d[10].0[49] != d[12].0[49]);
        } else {
            assert(d[i].0.len() != d[j].0.len());
        }
    }
}

/// The configuration never names a key twice, whatever the user settings.
pub proof fn law_keys_unique(settings: JsonValue)
    ensures
        keys_unique(roslyn_entries(settings)),
{
    lemma_defaults_unique();
    match settings {
        JsonValue::Object(entries) => lemma_settings_unique(default_entries(), entries_view(entries@)),
        _ => {},
    }
}

/// Every default key is present in the configuration, whatever the user
/// settings: user settings can change a default's value, never remove it.
pub proof fn law_defaults_always_present(settings: JsonValue, k: Seq<char>)
    requires
        lookup(default_entries(), k) is Some,
    ensures
        lookup(roslyn_entries(settings), k) is Some,
{
    match settings {
        JsonValue::Object(entries) => lemma_settings_present(default_entries(), entries_view(entries@), k),
        _ => {},
    }
}

/// A key that no user setting writes keeps its default: in particular Razor
/// cohosting is on unless the user settings turn it off.
pub proof fn law_unwritten_keys_keep_defaults(settings: JsonValue, k: Seq<char>)
    requires
        !user_writes(settings, k),
    ensures
        lookup(roslyn_entries(settings), k) == lookup(default_entries(), k),
{
    match settings {
        JsonValue::Object(entries) => lemma_settings_other(default_entries(), entries_view(entries@), k),
        _ => {},
    }
}

/// The last user setting wins for the key it writes: a dotted key is set to
/// its value as given.
pub proof fn law_dotted_setting_taken(acc: Entries, settings: Entries, key: Seq<char>, value: JsonValue)
    requires
        key.contains('.'),
        !key.contains('|'),
    ensures
        lookup(apply_settings(acc, settings.push((key, value))), key) == Some(value),
{
    let s = settings.push((key, value));
    assert(s.drop_last() =~= settings);
    lemma_upsert_lookup_same(apply_settings(acc, settings), key, value);
}

/// The last user setting wins for the key it writes: the last entry of a
/// `section|group` object sets `section|group.<key>`.
pub proof fn law_group_entry_taken(
    acc: Entries,
    settings: Entries,
    group: Seq<char>,
    nested: Vec<(String, JsonValue)>,
)
    requires
        group.contains('|'),
        nested@.len() > 0,
    ensures
        lookup(
            apply_settings(acc, settings.push((group, JsonValue::Object(nested)))),
            group + seq!['.'] + nested@.last().0@,
        ) == Some(nested@.last().1),
{
    let s = settings.push((group, JsonValue::Object(nested)));
    assert(s.drop_last() =~= settings);
    let nv = entries_view(nested@);
    assert(nv.last() == (nested@.last().0@, nested@.last().1));
    lemma_upsert_lookup_same(
        apply_group(apply_settings(acc, settings), group, nv.drop_last()),
        group + seq!['.'] + nv.last().0,
        nv.last().1,
    );
}

proof fn lemma_default_at(d: Entries, i: int)
    requires
        d == default_entries(),
        0 <= i < d.len(),
    ensures
        lookup(d, d[i].0) == Some(d[i].1),
{
    lemma_defaults_unique();
    lemma_find_key_first(d, d[i].0, i);
}

proof fn law_unwritten_keys_keep_defaults_if(settings: JsonValue, k: Seq<char>)
    ensures
        !user_writes(settings, k) ==> lookup(roslyn_entries(settings), k) == lookup(default_entries(), k),
{
    if !user_writes(settings, k) {
        law_unwritten_keys_keep_defaults(settings, k);
    }
}

/// Whatever the user settings, every key they do not write carries the value
/// the extension fixes for it: Razor cohosting on, the reference and test
/// code lenses off, and every inlay hint on.
pub proof fn law_default_values(settings: JsonValue)
    ensures
        !user_writes(settings, "razor|language_server.cohosting_enabled"@) ==> lookup(roslyn_entries(settings), "razor|language_server.cohosting_enabled"@) == Some(JsonValue::Bool(true)),
        !user_writes(settings, "csharp|code_lens.dotnet_enable_references_code_lens"@) ==> lookup(roslyn_entries(settings), "csharp|code_lens.dotnet_enable_references_code_lens"@) == Some(JsonValue::Bool(false)),
        !user_writes(settings, "csharp|code_lens.dotnet_enable_tests_code_lens"@) ==> lookup(roslyn_entries(settings), "csharp|code_lens.dotnet_enable_tests_code_lens"@) == Some(JsonValue::Bool(false)),
        !user_writes(settings, "csharp|inlay_hints.dotnet_enable_inlay_hints_for_parameters"@) ==> lookup(roslyn_entries(settings), "csharp|inlay_hints.dotnet_enable_inlay_hints_for_parameters"@) == Some(JsonValue::Bool(true)),
        !user_writes(settings, "csharp|inlay_hints.dotnet_enable_inlay_hints_for_literal_parameters"@) ==> lookup(roslyn_entries(settings), "csharp|inlay_hints.dotnet_enable_inlay_hints_for_literal_parameters"@) == Some(JsonValue::Bool(true)),
        !user_writes(settings, "csharp|inlay_hints.dotnet_enable_inlay_hints_for_indexer_parameters"@) ==> lookup(roslyn_entries(settings), "csharp|inlay_hints.dotnet_enable_inlay_hints_for_indexer_parameters"@) == Some(JsonValue::Bool(true)),
        !user_writes(settings, "csharp|inlay_hints.dotnet_enable_inlay_hints_for_object_creation_parameters"@) ==> lookup(roslyn_entries(settings), "csharp|inlay_hints.dotnet_enable_inlay_hints_for_object_creation_parameters"@) == Some(JsonValue::Bool(true)),
        !user_writes(settings, "csharp|inlay_hints.dotnet_enable_inlay_hints_for_other_parameters"@) ==> lookup(roslyn_entries(settings), "csharp|inlay_hints.dotnet_enable_inlay_hints_for_other_parameters"@) == Some(JsonValue::Bool(true)),
        !user_writes(settings, "csharp|inlay_hints.csharp_enable_inlay_hints_for_types"@) ==> lookup(roslyn_entries(settings), "csharp|inlay_hints.csharp_enable_inlay_hints_for_types"@) == Some(JsonValue::Bool(true)),
        !user_writes(settings, "csharp|inlay_hints.csharp_enable_inlay_hints_for_implicit_variable_types"@) ==> lookup(roslyn_entries(settings), "csharp|inlay_hints.csharp_enable_inlay_hints_for_implicit_variable_types"@) == Some(JsonValue::Bool(true)),
        !user_writes(settings, "csharp|inlay_hints.csharp_enable_inlay_hints_for_lambda_parameter_types"@) ==> lookup(roslyn_entries(settings), "csharp|inlay_hints.csharp_enable_inlay_hints_for_lambda_parameter_types"@) == Some(JsonValue::Bool(true)),
        !user_writes(settings, "csharp|inlay_hints.csharp_enable_inlay_hints_for_implicit_object_creation"@) ==> lookup(roslyn_entries(settings), "csharp|inlay_hints.csharp_enable_inlay_hints_for_implicit_object_creation"@) == Some(JsonValue::Bool(true)),
        !user_writes(settings, "csharp|inlay_hints.csharp_enable_inlay_hints_for_collection_expressions"@) ==> lookup(roslyn_entries(settings), "csharp|inlay_hints.csharp_enable_inlay_hints_for_collection_expressions"@) == Some(JsonValue::Bool(true)),
{
    let d = default_entries();
    lemma_default_at(d, 0);
    law_unwritten_keys_keep_defaults_if(settings, "razor|language_server.cohosting_enabled"@);
    lemma_default_at(d, 1);
    law_unwritten_keys_keep_defaults_if(settings, "csharp|code_lens.dotnet_enable_references_code_lens"@);
    lemma_default_at(d, 2);
    law_unwritten_keys_keep_defaults_if(settings, "csharp|code_lens.dotnet_enable_tests_code_lens"@);
    lemma_default_at(d, 3);
    law_unwritten_keys_keep_defaults_if(settings, "csharp|inlay_hints.dotnet_enable_inlay_hints_for_parameters"@);
    lemma_default_at(d, 4);
    law_unwritten_keys_keep_defaults_if(settings, "csharp|inlay_hints.dotnet_enable_inlay_hints_for_literal_parameters"@);
    lemma_default_at(d, 5);
    law_unwritten_keys_keep_defaults_if(settings, "csharp|inlay_hints.dotnet_enable_inlay_hints_for_indexer_parameters"@);
    lemma_default_at(d, 6);
    law_unwritten_keys_keep_defaults_if(settings, "csharp|inlay_hints.dotnet_enable_inlay_hints_for_object_creation_parameters"@);
    lemma_default_at(d, 7);
    law_unwritten_keys_keep_defaults_if(settings, "csharp|inlay_hints.dotnet_enable_inlay_hints_for_other_parameters"@);
    lemma_default_at(d, 8);
    law_unwritten_keys_keep_defaults_if(settings, "csharp|inlay_hints.csharp_enable_inlay_hints_for_types"@);
    lemma_default_at(d, 9);
    law_unwritten_keys_keep_defaults_if(settings, "csharp|inlay_hints.csharp_enable_inlay_hints_for_implicit_variable_types"@);
    lemma_default_at(d, 10);
    law_unwritten_keys_keep_defaults_if(settings, "csharp|inlay_hints.csharp_enable_inlay_hints_for_lambda_parameter_types"@);
    lemma_default_at(d, 11);
    law_unwritten_keys_keep_defaults_if(settings, "csharp|inlay_hints.csharp_enable_inlay_hints_for_implicit_object_creation"@);
    lemma_default_at(d, 12);
    law_unwritten_keys_keep_defaults_if(settings, "csharp|inlay_hints.csharp_enable_inlay_hints_for_collection_expressions"@);
}

} // verus!
