//! The allowed-root registry: the directories named by one configuration
//! value, in which `:` stands between two directories.
use crate::text::{field_end, find_field_end, from_chars, slice_chars, to_chars, views};
use vstd::prelude::*;

verus! {

/// The non-empty fields among those that start at `i` or later.
pub open spec fn entries_from(config: Seq<char>, i: int) -> Seq<Seq<char>>
    decreases config.len() - i,
{
    if i < 0 || i > config.len() {
        seq![]
    } else {
        let j = field_end(config, ':', i);
        let head = if j > i {
            seq![config.subrange(i, j)]
        } else {
            seq![]
        };
        if i <= j < config.len() {
            head + entries_from(config, j + 1)
        } else {
            head
        }
    }
}

/// The fields of `config` from `i` on, the empty ones too.
pub open spec fn fields_from(config: Seq<char>, i: int) -> Seq<Seq<char>>
    decreases config.len() - i,
{
    if i < 0 || i > config.len() {
        seq![]
    } else {
        let j = field_end(config, ':', i);
        if i <= j < config.len() {
            seq![config.subrange(i, j)] + fields_from(config, j + 1)
        } else {
            seq![config.subrange(i, j)]
        }
    }
}

/// The fields of `config` between `:`, in order, the empty ones too. An
/// empty value has one field, which is empty.
pub open spec fn config_fields(config: Seq<char>) -> Seq<Seq<char>> {
    fields_from(config, 0)
}

/// The directories that `config` names: its fields between `:`, in order,
/// without the empty ones. An empty value names none.
pub open spec fn allowed_directories(config: Seq<char>) -> Seq<Seq<char>> {
    entries_from(config, 0)
}

/// The directories that the configuration value names.
pub fn get_allowed_directories(config: &str) -> (dirs: Vec<String>)
    ensures
        views(dirs@) == allowed_directories(config@),
{
    let chars = to_chars(config);
    let n: usize = chars.len();
    let mut dirs: Vec<String> = Vec::new();
    let mut i: usize = 0;
    assert(views(dirs@) + entries_from(config@, 0) == allowed_directories(config@));
    loop
        invariant_except_break
            i <= n,
            allowed_directories(config@) == views(dirs@) + entries_from(config@, i as int),
        invariant
            n == chars.len(),
            chars@ == config@,
        ensures
            allowed_directories(config@) == views(dirs@),
        decreases n - i,
    {
        let j: usize = find_field_end(&chars, ':', i);
        let ghost before = views(dirs@);
        if j > i {
            let field = slice_chars(&chars, i, j);
            dirs.push(from_chars(&field));
            assert(views(dirs@) == before + seq![config@.subrange(i as int, j as int)]);
        }
        if j < n {
            assert(views(dirs@) + entries_from(config@, j + 1) == before + entries_from(
                config@,
                i as int,
            ));
            i = j + 1;
        } else {
            assert(views(dirs@) == before + entries_from(config@, i as int));
            break;
        }
    }
    dirs
}

/// The fields of the configuration value as they stand, the empty ones too.
pub fn split_config(config: &str) -> (fields: Vec<String>)
    ensures
        views(fields@) == config_fields(config@),
{
    let chars = to_chars(config);
    let n: usize = chars.len();
    let mut fields: Vec<String> = Vec::new();
    let mut i: usize = 0;
    assert(views(fields@) + fields_from(config@, 0) == config_fields(config@));
    loop
        invariant_except_break
            i <= n,
            config_fields(config@) == views(fields@) + fields_from(config@, i as int),
        invariant
            n == chars.len(),
            chars@ == config@,
        ensures
            config_fields(config@) == views(fields@),
        decreases n - i,
    {
        let j: usize = find_field_end(&chars, ':', i);
        let ghost before = views(fields@);
        let field = slice_chars(&chars, i, j);
        fields.push(from_chars(&field));
        assert(views(fields@) == before + seq![config@.subrange(i as int, j as int)]);
        if j < n {
            assert(views(fields@) + fields_from(config@, j + 1) == before + fields_from(
                config@,
                i as int,
            ));
            i = j + 1;
        } else {
            assert(views(fields@) == before + fields_from(config@, i as int));
            break;
        }
    }
    fields
}

/// No entry of the registry is empty, and none holds a `:`.
pub proof fn lemma_entries_shape(config: Seq<char>, i: int)
    requires
        0 <= i <= config.len(),
    ensures
        forall|k: int|
            0 <= k < entries_from(config, i).len() ==> {
                let e = #[trigger] entries_from(config, i)[k];
                e.len() > 0 && !e.contains(':')
            },
    decreases config.len() - i,
{
    let j = field_end(config, ':', i);
    let all = entries_from(config, i);
    crate::text::lemma_field_end_bounds(config, ':', i);
    let head = if j > i {
        seq![config.subrange(i, j)]
    } else {
        seq![]
    };
    if j > i {
        let e = config.subrange(i, j);
        assert forall|m: int| 0 <= m < e.len() implies e[m] != ':' by {
            assert(e[m] == config[i + m]);
        }
    }
    if j < config.len() {
        let rest = entries_from(config, j + 1);
        lemma_entries_shape(config, j + 1);
        assert(all == head + rest);
        assert forall|k: int| 0 <= k < all.len() implies {
            let e = #[trigger] all[k];
            e.len() > 0 && !e.contains(':')
        } by {
            if k >= head.len() {
                assert(all[k] == rest[k - head.len()]);
            }
        }
    } else {
        assert(all == head);
    }
}

/// The directories that a configuration value names are its fields without
/// the empty ones.
pub proof fn lemma_entries_are_filled_fields(config: Seq<char>, i: int)
    requires
        0 <= i <= config.len(),
    ensures
        entries_from(config, i) == fields_from(config, i).filter(|f: Seq<char>| f.len() > 0),
    decreases config.len() - i,
{
    let filled = |f: Seq<char>| f.len() > 0;
    let j = field_end(config, ':', i);
    crate::text::lemma_field_end_bounds(config, ':', i);
    let one = seq![config.subrange(i, j)];
    assert(one.filter(filled) == if j > i {
        one
    } else {
        seq![]
    }) by {
        reveal_with_fuel(Seq::filter, 2);
        assert(one.drop_last() =~= seq![]);
        assert(one.drop_last().filter(filled) =~= seq![]);
        assert(seq![].push(one.last()) =~= one);
    }
    if j < config.len() {
        lemma_entries_are_filled_fields(config, j + 1);
        Seq::filter_distributes_over_add(one, fields_from(config, j + 1), filled);
    }
}

/// An empty configuration value names no directory.
pub proof fn lemma_empty_config()
    ensures
        allowed_directories(Seq::<char>::empty()).len() == 0,
{
}

} // verus!
