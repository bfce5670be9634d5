use vstd::prelude::*;

use crate::parse::{
    is_key_char, is_space, spec_apply_pair, spec_empty_partial, spec_find, spec_integration_list,
    spec_key_end, spec_line_end, spec_parse_doc, spec_parse_items, spec_parse_line,
    spec_parse_settings, spec_parse_value, spec_skip_spaces, LineModel, PartialModel, ValueModel,
};
use crate::render::{spec_render_config, spec_render_items};
use crate::settings::{ConfigModel, Integrations};

verus! {

/// A package name the settings format can write and read back: quotes
/// would end the written string early, and a newline would end its
/// line.
pub open spec fn renderable_name(name: Seq<char>) -> bool {
    forall|k: int| 0 <= k < name.len() ==> name[k] != '"' && name[k] != '\n'
}

pub open spec fn renderable_all(items: Seq<Seq<char>>) -> bool {
    forall|i: int| 0 <= i < items.len() ==> renderable_name(items[i])
}

proof fn lemma_skip_spaces_region(s: Seq<char>, i: int, j: int, p: int)
    requires
        0 <= i <= p < j,
        forall|k: int| i <= k < p ==> is_space(s[k]),
        !is_space(s[p]),
    ensures
        spec_skip_spaces(s, i, j) == p,
    decreases p - i,
{
    if i < p {
        lemma_skip_spaces_region(s, i + 1, j, p);
    }
}

proof fn lemma_find_region(s: Seq<char>, i: int, j: int, c: char, p: int)
    requires
        0 <= i <= p < j,
        forall|k: int| i <= k < p ==> s[k] != c,
        s[p] == c,
    ensures
        spec_find(s, i, j, c) == Some(p),
    decreases p - i,
{
    if i < p {
        lemma_find_region(s, i + 1, j, c, p);
    }
}

proof fn lemma_line_end_region(s: Seq<char>, i: int, p: int)
    requires
        0 <= i <= p <= s.len(),
        forall|k: int| i <= k < p ==> s[k] != '\n',
        p == s.len() || s[p] == '\n',
    ensures
        spec_line_end(s, i) == p,
    decreases p - i,
{
    if i < p {
        lemma_line_end_region(s, i + 1, p);
    }
}

proof fn lemma_key_end_region(s: Seq<char>, i: int, j: int, p: int)
    requires
        0 <= i <= p <= j,
        forall|k: int| i <= k < p ==> is_key_char(s[k]),
        p == j || !is_key_char(s[p]),
    ensures
        spec_key_end(s, i, j) == p,
    decreases p - i,
{
    if i < p {
        lemma_key_end_region(s, i + 1, j, p);
    }
}

/// `spec_render_items` peels from the back; this restates it peeling
/// from the front, the direction the parser reads.
proof fn lemma_render_items_first(items: Seq<Seq<char>>)
    requires
        items.len() >= 1,
    ensures
        items.len() == 1 ==> spec_render_items(items) == "\""@ + items[0] + "\""@,
        items.len() >= 2 ==> spec_render_items(items) =~= "\""@ + items[0] + "\""@ + ", "@
            + spec_render_items(items.drop_first()),
    decreases items.len(),
{
    if items.len() == 1 {
    } else if items.len() == 2 {
        assert(items.drop_last().len() == 1);
        assert(items.drop_last()[0] == items[0]);
        assert(items.drop_first().len() == 1);
        assert(items.drop_first()[0] == items[1]);
        assert(items.last() == items[1]);
        assert(spec_render_items(items.drop_last()) == "\""@ + items.drop_last()[0] + "\""@);
        assert(spec_render_items(items.drop_first()) == "\""@ + items.drop_first()[0] + "\""@);
        assert(spec_render_items(items) == spec_render_items(items.drop_last()) + ", "@ + "\""@
            + items.last() + "\""@);
        assert(spec_render_items(items) =~= "\""@ + items[0] + "\""@ + ", "@ + spec_render_items(
            items.drop_first(),
        ));
    } else {
        lemma_render_items_first(items.drop_last());
        lemma_render_items_first(items.drop_first());
        assert(items.drop_last().len() >= 2);
        assert(items.drop_last()[0] == items[0]);
        assert(items.drop_last().drop_first() =~= items.drop_first().drop_last());
        assert(items.drop_first().last() == items.last());
        assert(spec_render_items(items) == spec_render_items(items.drop_last()) + ", "@ + "\""@
            + items.last() + "\""@);
        assert(spec_render_items(items.drop_first()) == spec_render_items(
            items.drop_first().drop_last(),
        ) + ", "@ + "\""@ + items.drop_first().last() + "\""@);
        assert(spec_render_items(items) =~= "\""@ + items[0] + "\""@ + ", "@ + spec_render_items(
            items.drop_first(),
        ));
    }
}

proof fn lemma_subrange_chars(s: Seq<char>, a: int, b: int, t: Seq<char>)
    requires
        0 <= a <= b <= s.len(),
        s.subrange(a, b) == t,
    ensures
        forall|k: int| a <= k < b ==> #[trigger] s[k] == t[k - a],
{
    assert forall|k: int| a <= k < b implies #[trigger] s[k] == t[k - a] by {
        assert(t[k - a] == s.subrange(a, b)[k - a]);
    }
}

/// A rendered list, followed by its closing bracket and preceded by
/// optional spaces, parses back to exactly the items that were
/// rendered, ending just past the bracket.
proof fn lemma_parse_rendered_items(
    s: Seq<char>,
    i: int,
    pad: int,
    j: int,
    items: Seq<Seq<char>>,
)
    requires
        renderable_all(items),
        0 <= i,
        0 <= pad,
        forall|k: int| i <= k < i + pad ==> is_space(s[k]),
        i + pad + spec_render_items(items).len() + 1 <= j <= s.len(),
        s.subrange(i + pad, i + pad + spec_render_items(items).len() + 1) =~= spec_render_items(
            items,
        ) + seq![']'],
    ensures
        spec_parse_items(s, i, j) == Some((items, i + pad + spec_render_items(items).len() + 1)),
    decreases items.len(),
{
    reveal_strlit("\"");
    reveal_strlit(", ");
    let o = i + pad;
    let rend = spec_render_items(items);
    let end = o + rend.len() + 1;
    let region = rend + seq![']'];
    lemma_subrange_chars(s, o, end, region);
    if items.len() == 0 {
        assert(s[o] == ']');
        lemma_skip_spaces_region(s, i, j, o);
        assert(spec_parse_items(s, i, j) == Some((Seq::<Seq<char>>::empty(), o + 1)));
        assert(items =~= Seq::<Seq<char>>::empty());
    } else {
        lemma_render_items_first(items);
        let n0 = items[0].len() as int;
        let q0 = "\""@ + items[0] + "\""@;
        assert(q0.len() == n0 + 2);
        if items.len() == 1 {
            assert(rend == q0);
        } else {
            assert(rend =~= q0 + ", "@ + spec_render_items(items.drop_first()));
        }
        assert(s[o] == '"');
        lemma_skip_spaces_region(s, i, j, o);
        assert(spec_skip_spaces(s, i, j) == o);
        // the closing quote of the first item
        assert(renderable_name(items[0]));
        assert forall|k: int| o + 1 <= k < o + 1 + n0 implies #[trigger] s[k] != '"' by {
            assert(s[k] == region[k - o]);
            assert(region[k - o] == items[0][k - o - 1]);
        }
        assert(s[o + 1 + n0] == '"');
        lemma_find_region(s, o + 1, j, '"', o + 1 + n0);
        let kq = o + 1 + n0;
        assert(s.subrange(o + 1, kq) =~= items[0]);
        if items.len() == 1 {
            // after the quote comes the bracket
            assert(s[kq + 1] == ']');
            lemma_skip_spaces_region(s, kq + 1, j, kq + 1);
            assert(spec_parse_items(s, i, j) == Some((seq![s.subrange(o + 1, kq)], kq + 2)));
            assert(seq![s.subrange(o + 1, kq)] =~= items);
            assert(kq + 2 == end);
        } else {
            // after the quote: a comma, a space, and the rest
            let rest = items.drop_first();
            let rrest = spec_render_items(rest);
            assert(s[kq + 1] == ',');
            assert(s[kq + 2] == ' ');
            lemma_skip_spaces_region(s, kq + 1, j, kq + 1);
            assert forall|m: int| 0 <= m < rest.len() implies renderable_name(#[trigger] rest[m]) by {
                assert(rest[m] == items[m + 1]);
            }
            assert(rend.len() == n0 + 4 + rrest.len());
            let tail_region = rrest + seq![']'];
            assert forall|m: int|
                0 <= m < rrest.len() + 1 implies s.subrange(
                kq + 3,
                kq + 3 + rrest.len() + 1,
            )[m] == #[trigger] tail_region[m] by {
                assert(s[kq + 3 + m] == region[kq + 3 + m - o]);
                assert(region[n0 + 4 + m] == tail_region[m]);
            }
            assert(s.subrange(kq + 3, kq + 3 + rrest.len() + 1) =~= tail_region);
            assert(is_space(s[kq + 2]));
            lemma_parse_rendered_items(s, kq + 2, 1, j, rest);
            assert(spec_parse_items(s, kq + 2, j) == Some((rest, kq + 3 + rrest.len() + 1)));
            assert(kq + 3 + rrest.len() + 1 == end);
            assert(spec_parse_items(s, i, j) == Some((seq![s.subrange(o + 1, kq)] + rest, end)));
            assert(seq![s.subrange(o + 1, kq)] + rest =~= items);
        }
    }
}


/// A line `key = 'value'` parses to that pair.
proof fn lemma_parse_text_line(s: Seq<char>, i: int, j: int, key: Seq<char>, value: Seq<char>)
    requires
        0 <= i,
        j == i + key.len() + 4 + value.len() + 1,
        j <= s.len(),
        s.subrange(i, j) =~= key + " = '"@ + value + "'"@,
        key.len() >= 1,
        forall|k: int| 0 <= k < key.len() ==> is_key_char(#[trigger] key[k]),
        forall|k: int| 0 <= k < value.len() ==> #[trigger] value[k] != '\'',
    ensures
        spec_parse_line(s, i, j) == Some(LineModel::Pair(key, ValueModel::Text(value))),
{
    reveal_strlit(" = '");
    reveal_strlit("'");
    let kl = key.len() as int;
    let vl = value.len() as int;
    let line = key + " = '"@ + value + "'"@;
    lemma_subrange_chars(s, i, j, line);
    assert(!is_space(s[i])) by {
        assert(s[i] == key[0]);
        assert(is_key_char(key[0]));
    }
    lemma_skip_spaces_region(s, i, j, i);
    assert forall|k: int| i <= k < i + kl implies is_key_char(#[trigger] s[k]) by {
        assert(s[k] == key[k - i]);
    }
    assert(s[i + kl] == ' ');
    lemma_key_end_region(s, i, j, i + kl);
    assert(s[i + kl + 1] == '=');
    lemma_skip_spaces_region(s, i + kl, j, i + kl + 1);
    // the value: an opening quote, its characters, the closing quote
    assert(s[i + kl + 3] == '\'');
    lemma_skip_spaces_region(s, i + kl + 2, j, i + kl + 3);
    assert forall|k: int| i + kl + 4 <= k < i + kl + 4 + vl implies #[trigger] s[k] != '\'' by {
        assert(s[k] == value[k - i - kl - 4]);
    }
    assert(s[i + kl + 4 + vl] == '\'');
    lemma_find_region(s, i + kl + 4, j, '\'', i + kl + 4 + vl);
    assert(spec_skip_spaces(s, i + kl + 4 + vl + 1, j) == j);
    assert(spec_parse_value(s, i + kl + 2, j) == Some(
        ValueModel::Text(s.subrange(i + kl + 4, i + kl + 4 + vl)),
    ));
    assert(s.subrange(i + kl + 4, i + kl + 4 + vl) =~= value);
    assert(s.subrange(i, i + kl) =~= key);
}

/// A line `key = [rendered items]` parses to that pair.
proof fn lemma_parse_list_line(s: Seq<char>, i: int, j: int, key: Seq<char>, items: Seq<Seq<char>>)
    requires
        0 <= i,
        j == i + key.len() + 4 + spec_render_items(items).len() + 1,
        j <= s.len(),
        s.subrange(i, i + key.len() + 4) =~= key + " = ["@,
        s.subrange(i + key.len() + 4, j) =~= spec_render_items(items) + seq![']'],
        key.len() >= 1,
        forall|k: int| 0 <= k < key.len() ==> is_key_char(#[trigger] key[k]),
        renderable_all(items),
    ensures
        spec_parse_line(s, i, j) == Some(LineModel::Pair(key, ValueModel::List(items))),
{
    reveal_strlit(" = [");
    let kl = key.len() as int;
    let head = key + " = ["@;
    lemma_subrange_chars(s, i, i + kl + 4, head);
    assert(!is_space(s[i])) by {
        assert(s[i] == key[0]);
        assert(is_key_char(key[0]));
    }
    lemma_skip_spaces_region(s, i, j, i);
    assert forall|k: int| i <= k < i + kl implies is_key_char(#[trigger] s[k]) by {
        assert(s[k] == key[k - i]);
    }
    assert(s[i + kl] == ' ');
    lemma_key_end_region(s, i, j, i + kl);
    assert(s[i + kl + 1] == '=');
    lemma_skip_spaces_region(s, i + kl, j, i + kl + 1);
    assert(s[i + kl + 3] == '[');
    lemma_skip_spaces_region(s, i + kl + 2, j, i + kl + 3);
    lemma_parse_rendered_items(s, i + kl + 4, 0, j, items);
    assert(spec_skip_spaces(s, j, j) == j);
    assert(spec_parse_value(s, i + kl + 2, j) == Some(ValueModel::List(items)));
    assert(s.subrange(i, i + kl) =~= key);
}

/// A rendered list holds no newline, so it stays inside its line.
proof fn lemma_render_items_no_newline(items: Seq<Seq<char>>)
    requires
        renderable_all(items),
    ensures
        forall|k: int|
            0 <= k < spec_render_items(items).len() ==> #[trigger] spec_render_items(items)[k]
                != '\n',
    decreases items.len(),
{
    reveal_strlit("\"");
    reveal_strlit(", ");
    if items.len() == 0 {
    } else if items.len() == 1 {
        assert(renderable_name(items[0]));
        assert forall|k: int|
            0 <= k < spec_render_items(items).len() implies #[trigger] spec_render_items(items)[k]
            != '\n' by {
            let q = "\""@ + items[0] + "\""@;
            assert(spec_render_items(items) == q);
            if 1 <= k < 1 + items[0].len() {
                assert(q[k] == items[0][k - 1]);
            }
        }
    } else {
        lemma_render_items_no_newline(items.drop_last());
        assert(renderable_all(items.drop_last())) by {
            assert(forall|m: int|
                0 <= m < items.drop_last().len() ==> #[trigger] items.drop_last()[m] == items[m]);
        }
        assert(renderable_name(items.last()));
        let rest = spec_render_items(items.drop_last());
        let q = "\""@ + items.last() + "\""@;
        assert(spec_render_items(items) == rest + ", "@ + "\""@ + items.last() + "\""@);
        assert forall|k: int|
            0 <= k < spec_render_items(items).len() implies #[trigger] spec_render_items(items)[k]
            != '\n' by {
            let whole = rest + ", "@ + "\""@ + items.last() + "\""@;
            assert(spec_render_items(items)[k] == whole[k]);
            if k < rest.len() {
                assert(whole[k] == rest[k]);
            } else if rest.len() + 3 <= k < rest.len() + 3 + items.last().len() {
                assert(whole[k] == items.last()[k - rest.len() - 3]);
            }
        }
    }
}


/// Round trip: the synthesized settings document parses back to
/// exactly the values it was rendered from, under the placeholder name
/// and the default package manager, with an empty integrations list.
/// It holds for every pair of package lists whose names are
/// renderable.
#[verifier::rlimit(100)]
pub proof fn lemma_render_parse_round_trip(ps: Seq<Seq<char>>, ds: Seq<Seq<char>>)
    requires
        renderable_all(ps),
        renderable_all(ds),
    ensures
        spec_parse_settings(spec_render_config(ps, ds)) == Some(
            ConfigModel {
                app_name: "DeezNuts"@,
                package_manager: "pnpm"@,
                packages: Some(ps),
                dev_packages: Some(ds),
                integrations: Some(Seq::<Integrations>::empty()),
            },
        ),
{
    reveal_strlit("app_name = 'DeezNuts'\npackage_manager = 'pnpm'\npackages = [");
    reveal_strlit("]\ndev_packages = [");
    reveal_strlit("]\nintegrations = []");
    reveal_strlit("app_name");
    reveal_strlit("package_manager");
    reveal_strlit("packages");
    reveal_strlit("dev_packages");
    reveal_strlit("integrations");
    reveal_strlit("DeezNuts");
    reveal_strlit("pnpm");
    reveal_strlit(" = '");
    reveal_strlit("'");
    reveal_strlit(" = [");
    let s = spec_render_config(ps, ds);
    let rp = spec_render_items(ps);
    let rd = spec_render_items(ds);
    let p = rp.len() as int;
    let d = rd.len() as int;
    let l1 = "app_name = 'DeezNuts'\npackage_manager = 'pnpm'\npackages = ["@;
    let l2 = "]\ndev_packages = ["@;
    let l3 = "]\nintegrations = []"@;
    assert(l1.len() == 59);
    assert(l2.len() == 18);
    assert(l3.len() == 19);
    assert(s == l1 + rp + l2 + rd + l3);
    assert(s.len() == 96 + p + d);
    lemma_render_items_no_newline(ps);
    lemma_render_items_no_newline(ds);
    // where each character of the document comes from
    assert forall|k: int| 0 <= k < 59 implies #[trigger] s[k] == l1[k] by {}
    assert forall|k: int| 59 <= k < 59 + p implies #[trigger] s[k] == rp[k - 59] by {}
    assert forall|k: int| 59 + p <= k < 77 + p implies #[trigger] s[k] == l2[k - 59 - p] by {}
    assert forall|k: int| 77 + p <= k < 77 + p + d implies #[trigger] s[k] == rd[k - 77 - p] by {}
    assert forall|k: int|
        77 + p + d <= k < 96 + p + d implies #[trigger] s[k] == l3[k - 77 - p - d] by {}
    // line 1: the application name
    assert(s.subrange(0, 21) =~= "app_name"@ + " = '"@ + "DeezNuts"@ + "'"@);
    assert forall|k: int|
        0 <= k < "app_name"@.len() implies is_key_char(#[trigger] "app_name"@[k]) by {}
    assert forall|k: int|
        0 <= k < "DeezNuts"@.len() implies #[trigger] "DeezNuts"@[k] != '\'' by {}
    lemma_parse_text_line(s, 0, 21, "app_name"@, "DeezNuts"@);
    assert forall|k: int| 0 <= k < 21 implies #[trigger] s[k] != '\n' by {}
    assert(s[21] == '\n');
    lemma_line_end_region(s, 0, 21);
    // line 2: the package manager
    assert(s.subrange(22, 46) =~= "package_manager"@ + " = '"@ + "pnpm"@ + "'"@);
    assert forall|k: int|
        0 <= k < "package_manager"@.len() implies is_key_char(
        #[trigger] "package_manager"@[k],
    ) by {}
    assert forall|k: int| 0 <= k < "pnpm"@.len() implies #[trigger] "pnpm"@[k] != '\'' by {}
    lemma_parse_text_line(s, 22, 46, "package_manager"@, "pnpm"@);
    assert forall|k: int| 22 <= k < 46 implies #[trigger] s[k] != '\n' by {}
    assert(s[46] == '\n');
    lemma_line_end_region(s, 22, 46);
    // line 3: the runtime packages
    assert(s.subrange(47, 59) =~= "packages"@ + " = ["@);
    assert forall|k: int|
        0 <= k < "packages"@.len() implies is_key_char(#[trigger] "packages"@[k]) by {}
    assert forall|m: int|
        0 <= m < p + 1 implies s.subrange(59, 60 + p)[m] == #[trigger] (rp + seq![']'])[m] by {
        if m < p {
            assert(s[59 + m] == rp[m]);
        } else {
            assert(s[59 + p] == l2[0]);
        }
    }
    assert(s.subrange(59, 60 + p) =~= rp + seq![']']);
    lemma_parse_list_line(s, 47, 60 + p, "packages"@, ps);
    assert forall|k: int| 47 <= k < 60 + p implies #[trigger] s[k] != '\n' by {
        if 59 <= k < 59 + p {
            assert(s[k] == rp[k - 59]);
            assert(rp[k - 59] != '\n');
        } else if k == 59 + p {
            assert(s[k] == l2[0]);
        }
    }
    assert(s[60 + p] == l2[1]);
    assert(s[60 + p] == '\n');
    lemma_line_end_region(s, 47, 60 + p);
    // line 4: the development packages
    assert forall|m: int|
        0 <= m < 16 implies s.subrange(61 + p, 77 + p)[m] == #[trigger] ("dev_packages"@
            + " = ["@)[m] by {
        assert(s[61 + p + m] == l2[2 + m]);
    }
    assert(s.subrange(61 + p, 77 + p) =~= "dev_packages"@ + " = ["@);
    assert forall|k: int|
        0 <= k < "dev_packages"@.len() implies is_key_char(#[trigger] "dev_packages"@[k]) by {}
    assert forall|m: int|
        0 <= m < d + 1 implies s.subrange(77 + p, 78 + p + d)[m] == #[trigger] (rd
            + seq![']'])[m] by {
        if m < d {
            assert(s[77 + p + m] == rd[m]);
        } else {
            assert(s[77 + p + d] == l3[0]);
        }
    }
    assert(s.subrange(77 + p, 78 + p + d) =~= rd + seq![']']);
    lemma_parse_list_line(s, 61 + p, 78 + p + d, "dev_packages"@, ds);
    assert forall|k: int| 61 + p <= k < 78 + p + d implies #[trigger] s[k] != '\n' by {
        if k < 77 + p {
            assert(s[k] == l2[k - 59 - p]);
        } else if k < 77 + p + d {
            assert(s[k] == rd[k - 77 - p]);
            assert(rd[k - 77 - p] != '\n');
        } else {
            assert(s[k] == l3[0]);
        }
    }
    assert(s[78 + p + d] == l3[1]);
    assert(s[78 + p + d] == '\n');
    lemma_line_end_region(s, 61 + p, 78 + p + d);
    // line 5: the empty integrations list
    let none_items = Seq::<Seq<char>>::empty();
    assert(spec_render_items(none_items).len() == 0);
    assert forall|m: int|
        0 <= m < 16 implies s.subrange(79 + p + d, 95 + p + d)[m] == #[trigger] ("integrations"@
            + " = ["@)[m] by {
        assert(s[79 + p + d + m] == l3[2 + m]);
    }
    assert(s.subrange(79 + p + d, 95 + p + d) =~= "integrations"@ + " = ["@);
    assert forall|k: int|
        0 <= k < "integrations"@.len() implies is_key_char(#[trigger] "integrations"@[k]) by {}
    assert forall|m: int|
        0 <= m < 1 implies s.subrange(95 + p + d, 96 + p + d)[m] == #[trigger] (spec_render_items(
            none_items,
        ) + seq![']'])[m] by {
        assert(s[95 + p + d] == l3[18]);
    }
    assert(s.subrange(95 + p + d, 96 + p + d) =~= spec_render_items(none_items) + seq![']']);
    lemma_parse_list_line(s, 79 + p + d, 96 + p + d, "integrations"@, none_items);
    assert forall|k: int| 79 + p + d <= k < 96 + p + d implies #[trigger] s[k] != '\n' by {
        assert(s[k] == l3[k - 77 - p - d]);
    }
    lemma_line_end_region(s, 79 + p + d, 96 + p + d);
    // the five keys are pairwise distinguishable where lengths agree
    assert("packages"@ != "app_name"@) by {
        assert("packages"@[0] == 'p');
        assert("app_name"@[0] == 'a');
    }
    assert("integrations"@ != "dev_packages"@) by {
        assert("integrations"@[0] == 'i');
        assert("dev_packages"@[0] == 'd');
    }
    // fold the five lines into the settings document
    let acc0 = spec_empty_partial();
    let acc1 = PartialModel { app_name: Some("DeezNuts"@), ..acc0 };
    let acc2 = PartialModel { package_manager: Some("pnpm"@), ..acc1 };
    let acc3 = PartialModel { packages: Some(ps), ..acc2 };
    let acc4 = PartialModel { dev_packages: Some(ds), ..acc3 };
    assert(spec_integration_list(none_items) matches Some(gs) && gs =~= Seq::<
        Integrations,
    >::empty());
    let acc5 = PartialModel { integrations: Some(Seq::<Integrations>::empty()), ..acc4 };
    assert(spec_apply_pair(acc0, "app_name"@, ValueModel::Text("DeezNuts"@)) == Some(acc1));
    assert(spec_apply_pair(acc1, "package_manager"@, ValueModel::Text("pnpm"@)) == Some(acc2));
    assert(spec_apply_pair(acc2, "packages"@, ValueModel::List(ps)) == Some(acc3));
    assert(spec_apply_pair(acc3, "dev_packages"@, ValueModel::List(ds)) == Some(acc4));
    assert(spec_apply_pair(acc4, "integrations"@, ValueModel::List(none_items)) == Some(acc5));
    assert(spec_parse_doc(s, 0, acc0) == spec_parse_doc(s, 22, acc1));
    assert(spec_parse_doc(s, 22, acc1) == spec_parse_doc(s, 47, acc2));
    assert(spec_parse_doc(s, 47, acc2) == spec_parse_doc(s, 61 + p, acc3));
    assert(spec_parse_doc(s, 61 + p, acc3) == spec_parse_doc(s, 79 + p + d, acc4));
    assert(spec_parse_doc(s, 79 + p + d, acc4) == Some(acc5));
    assert(spec_parse_settings(s) == Some(
        ConfigModel {
            app_name: "DeezNuts"@,
            package_manager: "pnpm"@,
            packages: Some(ps),
            dev_packages: Some(ds),
            integrations: Some(Seq::<Integrations>::empty()),
        },
    ));
}

} // verus!
