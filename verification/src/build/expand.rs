//! The source text that the build hands to the preprocessor to learn the
//! configuration of the host: for each known setting, a line that the
//! preprocessor keeps if the host defines the setting.

use crate::build::metadata::{conf_features, conf_os, ngx_conf_features, ngx_conf_os};
use crate::build::text::{chars, push_all, texts, to_ascii_uppercase, uppercase};
use vstd::prelude::*;

verus! {

/// The beginning of the source text: the host's headers, and the lines
/// for the build and the version.
pub open spec fn expand_head() -> Seq<char> {
    "\n#include <ngx_config.h>\n#include <nginx.h>\n\nRUST_CONF_NGINX_BUILD=NGINX_VER_BUILD\nRUST_CONF_NGINX_VERSION=NGINX_VER\nRUST_CONF_NGINX_VERSION_NUMBER=nginx_version\n"@
}

/// The part of the source text for the setting `flag`, whose name the
/// host writes in capitals.
pub open spec fn expand_block(flag: Seq<char>) -> Seq<char> {
    let f = to_ascii_uppercase(flag);
    "\n#if defined(NGX_"@ + f + ")\nRUST_CONF_"@ + f + "=NGX_"@ + f + "\n#endif"@
}

/// The parts of the source text for the settings `flags`, in their order.
pub open spec fn expand_blocks(flags: Seq<Seq<char>>) -> Seq<char>
    decreases flags.len(),
{
    if flags.len() == 0 {
        Seq::empty()
    } else {
        expand_blocks(flags.drop_last()) + expand_block(flags.last())
    }
}

/// The source text: its beginning, and the parts for the known features
/// and then for the known operating systems.
pub open spec fn expand_source() -> Seq<char> {
    expand_head() + expand_blocks(conf_features() + conf_os())
}

/// Appends the parts of the source text for the settings `flags` to `v`.
fn push_blocks(v: &mut Vec<char>, flags: &Vec<Vec<char>>)
    ensures
        final(v)@ == old(v)@ + expand_blocks(texts(flags@)),
{
    let open = chars("\n#if defined(NGX_");
    let conf = chars(")\nRUST_CONF_");
    let is = chars("=NGX_");
    let close = chars("\n#endif");
    let mut i: usize = 0;
    assert(old(v)@ + Seq::<char>::empty() =~= old(v)@);
    while i < flags.len()
        invariant
            i <= flags@.len(),
            open@ == "\n#if defined(NGX_"@,
            conf@ == ")\nRUST_CONF_"@,
            is@ == "=NGX_"@,
            close@ == "\n#endif"@,
            v@ == old(v)@ + expand_blocks(texts(flags@).take(i as int)),
        decreases flags@.len() - i,
    {
        let f = uppercase(flags[i].as_slice());
        let ghost before = v@;
        push_all(v, open.as_slice());
        push_all(v, f.as_slice());
        push_all(v, conf.as_slice());
        push_all(v, f.as_slice());
        push_all(v, is.as_slice());
        push_all(v, f.as_slice());
        push_all(v, close.as_slice());
        proof {
            let t = texts(flags@).take(i + 1);
            assert(t.drop_last() == texts(flags@).take(i as int));
            assert(t.last() == flags@[i as int]@);
            assert(v@ =~= before + expand_block(flags@[i as int]@));
            assert(v@ =~= old(v)@ + expand_blocks(t));
        }
        i = i + 1;
    }
    assert(texts(flags@).take(i as int) == texts(flags@));
}

/// The source text that the preprocessor expands.
pub fn expand_definitions() -> (v: Vec<char>)
    ensures
        v@ == expand_source(),
{
    let mut v = chars(
        "\n#include <ngx_config.h>\n#include <nginx.h>\n\nRUST_CONF_NGINX_BUILD=NGINX_VER_BUILD\nRUST_CONF_NGINX_VERSION=NGINX_VER\nRUST_CONF_NGINX_VERSION_NUMBER=nginx_version\n",
    );
    let features = ngx_conf_features();
    let os = ngx_conf_os();
    push_blocks(&mut v, &features);
    push_blocks(&mut v, &os);
    proof {
        lemma_blocks_add(conf_features(), conf_os());
        assert(v@ =~= expand_head() + (expand_blocks(conf_features()) + expand_blocks(conf_os())));
    }
    v
}

/// The parts for two lists of settings, one list after the other, are the
/// parts for the first list followed by the parts for the second.
pub proof fn lemma_blocks_add(a: Seq<Seq<char>>, b: Seq<Seq<char>>)
    ensures
        expand_blocks(a + b) == expand_blocks(a) + expand_blocks(b),
    decreases b.len(),
{
    if b.len() == 0 {
        assert(a + b =~= a);
        assert(expand_blocks(a) + Seq::<char>::empty() =~= expand_blocks(a));
    } else {
        lemma_blocks_add(a, b.drop_last());
        assert((a + b).drop_last() =~= a + b.drop_last());
        assert((a + b).last() == b.last());
        assert(expand_blocks(a + b) =~= expand_blocks(a) + expand_blocks(b));
    }
}

} // verus!
