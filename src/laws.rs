use vstd::prelude::*;

use crate::download::{failed_items, written_positions, ItemOutcome};
use crate::error::ScrapeError;
use crate::links::{
    attr_value, href_key, https_scheme, link_of, links_of, text_content, title_key, AnchorView,
    LinkView,
};

verus! {

/// Extraction yields one link per matched anchor, in the anchors' order:
/// it succeeds exactly when every anchor yields a link, and then the link
/// at each position is the one that the anchor at that position yields.
pub proof fn lemma_one_link_per_anchor(anchors: Seq<AnchorView>)
    ensures
        links_of(anchors).is_ok() <==> forall|i: int|
            0 <= i < anchors.len() ==> (#[trigger] link_of(anchors[i])).is_ok(),
        links_of(anchors) matches Ok(ls) ==> {
            &&& ls.len() == anchors.len()
            &&& forall|i: int|
                0 <= i < anchors.len() ==> Ok::<LinkView, ScrapeError>(#[trigger] ls[i]) == link_of(
                    anchors[i],
                )
        },
    decreases anchors.len(),
{
    if anchors.len() > 0 {
        let init = anchors.drop_last();
        lemma_one_link_per_anchor(init);
        assert forall|i: int| 0 <= i < init.len() implies init[i] == anchors[i] by {}
        if !links_of(anchors).is_ok() && links_of(init).is_ok() {
            assert(!link_of(anchors[anchors.len() - 1]).is_ok());
        }
        if !links_of(init).is_ok() {
            let j = choose|j: int| 0 <= j < init.len() && !(#[trigger] link_of(init[j])).is_ok();
            assert(!link_of(anchors[j]).is_ok());
        }
    }
}

/// An anchor with a link target and a title is named by its title, whatever
/// its text, and its address is the target under the https scheme.
pub proof fn lemma_title_names_link(a: AnchorView, texts: Seq<Seq<char>>)
    requires
        attr_value(a.attrs, href_key()).is_some(),
        attr_value(a.attrs, title_key()).is_some(),
    ensures
        link_of(a) == Ok::<LinkView, ScrapeError>(
            LinkView {
                url: https_scheme() + attr_value(a.attrs, href_key()).unwrap(),
                name: attr_value(a.attrs, title_key()).unwrap(),
            },
        ),
        link_of(AnchorView { attrs: a.attrs, texts }) == link_of(a),
{
}

/// An anchor with a link target and no title is named by its rendered text
/// where that text is not empty.
pub proof fn lemma_text_names_link(a: AnchorView)
    requires
        attr_value(a.attrs, href_key()).is_some(),
        attr_value(a.attrs, title_key()).is_none(),
        text_content(a).len() > 0,
    ensures
        link_of(a) == Ok::<LinkView, ScrapeError>(
            LinkView {
                url: https_scheme() + attr_value(a.attrs, href_key()).unwrap(),
                name: text_content(a),
            },
        ),
{
}

/// An anchor with a link target but neither a title nor any text fails
/// with `MissingName`, and so does the whole extraction where every anchor
/// before it yields a link; with earlier failures, it still fails.
pub proof fn lemma_nameless_anchor_fails(anchors: Seq<AnchorView>, i: int)
    requires
        0 <= i < anchors.len(),
        attr_value(anchors[i].attrs, href_key()).is_some(),
        attr_value(anchors[i].attrs, title_key()).is_none(),
        text_content(anchors[i]).len() == 0,
    ensures
        link_of(anchors[i]) == Err::<LinkView, ScrapeError>(ScrapeError::MissingName),
        links_of(anchors).is_err(),
        (forall|j: int| 0 <= j < i ==> (#[trigger] link_of(anchors[j])).is_ok()) ==> links_of(
            anchors,
        ) == Err::<Seq<LinkView>, ScrapeError>(ScrapeError::MissingName),
    decreases anchors.len(),
{
    lemma_one_link_per_anchor(anchors);
    if i < anchors.len() - 1 {
        let init = anchors.drop_last();
        assert(init[i] == anchors[i]);
        lemma_nameless_anchor_fails(init, i);
        if forall|j: int| 0 <= j < i ==> (#[trigger] link_of(anchors[j])).is_ok() {
            assert forall|j: int| 0 <= j < i implies (#[trigger] link_of(init[j])).is_ok() by {
                assert(init[j] == anchors[j]);
            }
        }
    } else {
        let init = anchors.drop_last();
        lemma_one_link_per_anchor(init);
        if forall|j: int| 0 <= j < i ==> (#[trigger] link_of(anchors[j])).is_ok() {
            assert forall|j: int| 0 <= j < init.len() implies (#[trigger] link_of(
                init[j],
            )).is_ok() by {
                assert(init[j] == anchors[j]);
            }
        }
    }
}

/// A listing without matched anchors yields no links, and a batch without
/// items reports nothing written and nothing failed.
pub proof fn lemma_empty_listing()
    ensures
        links_of(Seq::<AnchorView>::empty()) == Ok::<Seq<LinkView>, ScrapeError>(Seq::empty()),
        written_positions(Seq::<ItemOutcome>::empty()).len() == 0,
        failed_items(Seq::<ItemOutcome>::empty()).len() == 0,
{
}

/// Each item of a batch is reported once and on its own: an item is among
/// the written positions exactly when it was written, among the failures,
/// with its own error, exactly when it failed, and the two lists together
/// are as long as the batch.
pub proof fn lemma_items_reported_apart(outcomes: Seq<ItemOutcome>)
    requires
        outcomes.len() <= usize::MAX + 1,
    ensures
        written_positions(outcomes).len() + failed_items(outcomes).len() == outcomes.len(),
        forall|i: int|
            0 <= i < outcomes.len() ==> (outcomes[i] == ItemOutcome::Written
                <==> written_positions(outcomes).contains(i as usize)),
        forall|i: int, e: ScrapeError|
            0 <= i < outcomes.len() ==> (outcomes[i] == ItemOutcome::Failed(e)
                <==> failed_items(outcomes).contains((i as usize, e))),
    decreases outcomes.len(),
{
    if outcomes.len() > 0 {
        let init = outcomes.drop_last();
        let n = outcomes.len() - 1;
        lemma_items_reported_apart(init);
        lemma_positions_below(init);
        assert forall|i: int| 0 <= i < outcomes.len() implies (outcomes[i] == ItemOutcome::Written
            <==> written_positions(outcomes).contains(i as usize)) by {
            if i < n {
                assert(init[i] == outcomes[i]);
                if written_positions(outcomes).contains(i as usize) {
                    let k = choose|k: int|
                        0 <= k < written_positions(outcomes).len() && written_positions(
                            outcomes,
                        )[k] == i as usize;
                    if k == written_positions(init).len() {
                    } else {
                        assert(written_positions(init)[k] == i as usize);
                    }
                }
                if outcomes[i] == ItemOutcome::Written {
                    let k = choose|k: int|
                        0 <= k < written_positions(init).len() && written_positions(init)[k]
                            == i as usize;
                    assert(written_positions(outcomes)[k] == i as usize);
                }
            } else {
                if outcomes[i] == ItemOutcome::Written {
                    assert(written_positions(outcomes).last() == i as usize);
                } else if written_positions(outcomes).contains(i as usize) {
                    let k = choose|k: int|
                        0 <= k < written_positions(init).len() && written_positions(init)[k]
                            == i as usize;
                    assert(written_positions(init).contains(written_positions(init)[k]));
                }
            }
        }
        assert forall|i: int, e: ScrapeError| 0 <= i < outcomes.len() implies (outcomes[i]
            == ItemOutcome::Failed(e) <==> failed_items(outcomes).contains((i as usize, e))) by {
            if i < n {
                assert(init[i] == outcomes[i]);
                if failed_items(outcomes).contains((i as usize, e)) {
                    let k = choose|k: int|
                        0 <= k < failed_items(outcomes).len() && failed_items(outcomes)[k] == (
                            i as usize,
                            e,
                        );
                    if k == failed_items(init).len() {
                    } else {
                        assert(failed_items(init)[k] == (i as usize, e));
                    }
                }
                if outcomes[i] == ItemOutcome::Failed(e) {
                    let k = choose|k: int|
                        0 <= k < failed_items(init).len() && failed_items(init)[k] == (
                            i as usize,
                            e,
                        );
                    assert(failed_items(outcomes)[k] == (i as usize, e));
                }
            } else {
                if outcomes[i] == ItemOutcome::Failed(e) {
                    assert(failed_items(outcomes).last() == (i as usize, e));
                } else if failed_items(outcomes).contains((i as usize, e)) {
                    let k = choose|k: int|
                        0 <= k < failed_items(outcomes).len() && failed_items(outcomes)[k] == (
                            i as usize,
                            e,
                        );
                    if k < failed_items(init).len() {
                        assert(failed_items(init)[k] == (i as usize, e));
                        assert(failed_items(init).contains(failed_items(init)[k]));
                    }
                }
            }
        }
    }
}

/// Every position that a report names lies inside the batch.
proof fn lemma_positions_below(outcomes: Seq<ItemOutcome>)
    requires
        outcomes.len() <= usize::MAX + 1,
    ensures
        forall|k: int|
            0 <= k < written_positions(outcomes).len() ==> (written_positions(outcomes)[k] as int)
                < outcomes.len(),
        forall|k: int|
            0 <= k < failed_items(outcomes).len() ==> (failed_items(outcomes)[k].0 as int)
                < outcomes.len(),
    decreases outcomes.len(),
{
    if outcomes.len() > 0 {
        let init = outcomes.drop_last();
        lemma_positions_below(init);
        let w = written_positions(outcomes);
        let f = failed_items(outcomes);
        assert forall|k: int| 0 <= k < w.len() implies (w[k] as int) < outcomes.len() by {
            if k < written_positions(init).len() {
                assert(w[k] == written_positions(init)[k]);
            }
        }
        assert forall|k: int| 0 <= k < f.len() implies (f[k].0 as int) < outcomes.len() by {
            if k < failed_items(init).len() {
                assert(f[k] == failed_items(init)[k]);
            }
        }
    }
}

} // verus!
