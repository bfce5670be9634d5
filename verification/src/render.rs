use vstd::prelude::*;
use vstd::string::StringExecFns;

verus! {

/// A list's items as the settings format writes them: each name in
/// double quotes, separated by a comma and a space.
pub open spec fn spec_render_items(items: Seq<Seq<char>>) -> Seq<char>
    decreases items.len(),
{
    if items.len() == 0 {
        Seq::<char>::empty()
    } else if items.len() == 1 {
        "\""@ + items[0] + "\""@
    } else {
        spec_render_items(items.drop_last()) + ", "@ + "\""@ + items.last() + "\""@
    }
}

/// The settings document synthesized for the user to edit: placeholder
/// name, default package manager, the caller's package lists, and an
/// empty integrations list.
pub open spec fn spec_render_config(ps: Seq<Seq<char>>, ds: Seq<Seq<char>>) -> Seq<char> {
    "app_name = 'DeezNuts'\npackage_manager = 'pnpm'\npackages = ["@ + spec_render_items(ps)
        + "]\ndev_packages = ["@ + spec_render_items(ds) + "]\nintegrations = []"@
}

fn render_items(items: &Vec<String>) -> (r: String)
    ensures
        r@ == spec_render_items(items.deep_view()),
{
    let mut out = String::new();
    let mut i: usize = 0;
    while i < items.len()
        invariant
            i <= items@.len(),
            out@ == spec_render_items(items.deep_view().take(i as int)),
        decreases items@.len() - i,
    {
        if i > 0 {
            out.append(", ");
        }
        out.append("\"");
        out.append(items[i].as_str());
        out.append("\"");
        proof {
            let dv = items.deep_view();
            assert(dv.take(i + 1 as int).drop_last() =~~= dv.take(i as int));
            assert(dv.take(i + 1 as int).last() == dv[i as int]);
            assert(out@ =~= spec_render_items(dv.take(i + 1 as int)));
        }
        i += 1;
    }
    proof {
        assert(items.deep_view().take(items.deep_view().len() as int) =~~= items.deep_view());
    }
    out
}

/// Synthesize the settings document for the given package lists,
/// exactly as `spec_render_config` states it.
pub fn render_config(packages: &Vec<String>, dev_packages: &Vec<String>) -> (r: String)
    ensures
        r@ == spec_render_config(packages.deep_view(), dev_packages.deep_view()),
{
    let mut out = String::from_str("app_name = 'DeezNuts'\npackage_manager = 'pnpm'\npackages = [");
    let ps = render_items(packages);
    out.append(ps.as_str());
    out.append("]\ndev_packages = [");
    let ds = render_items(dev_packages);
    out.append(ds.as_str());
    out.append("]\nintegrations = []");
    proof {
        assert(out@ =~= spec_render_config(packages.deep_view(), dev_packages.deep_view()));
    }
    out
}

} // verus!
