//! The layout of a filter graph: its filters, and the links that chain the
//! graph's input through every filter, in order, to its output.
use vstd::prelude::*;
use super::filters::{
    audio_filter_view, generic_result_view, video_filter_view, AudioFilter, GenericFilter,
    GenericFilterView, VideoFilter,
};

verus! {

/// One end of a link: the graph's input, the filter at a position, or the
/// graph's output.
#[derive(Clone, Copy, Debug, PartialEq, Eq, Structural)]
pub enum GraphNode {
    Input,
    Filter(usize),
    Output,
}

/// A link from the first pad of `from` to the first pad of `to`.
#[derive(Clone, Copy, Debug, PartialEq, Eq, Structural)]
pub struct GraphLink {
    pub from: GraphNode,
    pub to: GraphNode,
}

/// The links of a chain of `n` filters: input to the first filter, each
/// filter to the next, the last filter to output; none when `n` is zero.
pub open spec fn chain_links(n: nat) -> Seq<GraphLink> {
    if n == 0 {
        Seq::empty()
    } else {
        Seq::new(
            n + 1,
            |i: int|
                GraphLink {
                    from: if i == 0 { GraphNode::Input } else { GraphNode::Filter((i - 1) as usize) },
                    to: if i == n { GraphNode::Output } else { GraphNode::Filter(i as usize) },
                },
        )
    }
}

/// The filters of a graph and the links between them.
#[derive(Debug)]
pub struct FilterGraphPlan {
    pub filters: Vec<GenericFilter>,
    pub links: Vec<GraphLink>,
}

/// The links that chain `n` filters between the input and the output.
pub fn chain(n: usize) -> (links: Vec<GraphLink>)
    ensures
        links@ == chain_links(n as nat),
{
    let mut links: Vec<GraphLink> = Vec::new();
    if n == 0 {
        assert(links@ =~= chain_links(0));
        return links;
    }
    let mut i: usize = 0;
    while i < n
        invariant
            0 < n,
            i <= n,
            links@ == chain_links(n as nat).take(i as int),
        decreases n - i,
    {
        let from = if i == 0 { GraphNode::Input } else { GraphNode::Filter(i - 1) };
        links.push(GraphLink { from, to: GraphNode::Filter(i) });
        i = i + 1;
        assert(links@ =~= chain_links(n as nat).take(i as int));
    }
    links.push(GraphLink { from: GraphNode::Filter(n - 1), to: GraphNode::Output });
    assert(links@ =~= chain_links(n as nat));
    links
}

/// Every filter of a chain has one link in and one link out, the input one
/// link out, and the output one link in: the links take the stream from the
/// input through the filters in their order to the output.
pub proof fn lemma_chain_passes_every_filter(n: nat)
    requires
        0 < n <= usize::MAX,
    ensures
        chain_links(n).len() == n + 1,
        chain_links(n)[0].from == GraphNode::Input,
        chain_links(n)[n as int].to == GraphNode::Output,
        forall|i: int| 0 <= i < n ==> (#[trigger] chain_links(n)[i]).to == GraphNode::Filter(i as usize),
        forall|i: int| 0 <= i < n ==> (#[trigger] chain_links(n)[i + 1]).from == GraphNode::Filter(i as usize),
        forall|i: int, j: int| 0 <= i < n + 1 && 0 <= j < n + 1 && i != j ==>
            (#[trigger] chain_links(n)[i]).to != (#[trigger] chain_links(n)[j]).to,
{
    assert forall|i: int| 0 <= i < n implies (#[trigger] chain_links(n)[i + 1]).from == GraphNode::Filter(i as usize) by {
        assert(chain_links(n)[i + 1].from == GraphNode::Filter(((i + 1) - 1) as usize));
    }
    assert forall|i: int, j: int| 0 <= i < n + 1 && 0 <= j < n + 1 && i != j implies
        (#[trigger] chain_links(n)[i]).to != (#[trigger] chain_links(n)[j]).to by {
        if i < n && j < n {
            assert(chain_links(n)[i].to == GraphNode::Filter(i as usize));
            assert(chain_links(n)[j].to == GraphNode::Filter(j as usize));
            assert(i as usize != j as usize);
        }
    }
}

/// The audio graph for `filters`: each filter as its generic filter, chained
/// in order; no graph when there is no filter.
pub fn plan_audio_graph(filters: &[AudioFilter]) -> (r: Option<FilterGraphPlan>)
    ensures
        r is None <==> filters@.len() == 0,
        r matches Some(plan) ==> {
            &&& plan.filters@.len() == filters@.len()
            &&& forall|i: int| 0 <= i < filters@.len() ==>
                (#[trigger] plan.filters@[i])@ == audio_filter_view(filters@[i])
            &&& plan.links@ == chain_links(filters@.len())
        },
{
    if filters.len() == 0 {
        return None;
    }
    let mut generic: Vec<GenericFilter> = Vec::new();
    let mut i: usize = 0;
    while i < filters.len()
        invariant
            i <= filters.len(),
            generic@.len() == i,
            forall|j: int| 0 <= j < i ==> (#[trigger] generic@[j])@ == audio_filter_view(filters@[j]),
        decreases filters.len() - i,
    {
        let g = filters[i].to_generic_filter();
        generic.push(g);
        i = i + 1;
    }
    let links = chain(filters.len());
    Some(FilterGraphPlan { filters: generic, links })
}

/// The video graph for `filters` on pictures `image_width` by
/// `image_height`: each filter as its generic filter, chained in order; no
/// graph when there is no filter; the message of the first filter that
/// cannot be built.
pub fn plan_video_graph(filters: &[VideoFilter], image_width: u32, image_height: u32) -> (r: Result<Option<FilterGraphPlan>, String>)
    ensures
        match r {
            Ok(None) => filters@.len() == 0,
            Ok(Some(plan)) => {
                &&& filters@.len() > 0
                &&& plan.filters@.len() == filters@.len()
                &&& forall|i: int| 0 <= i < filters@.len() ==>
                    video_filter_view(#[trigger] filters@[i], image_width, image_height) == Ok::<GenericFilterView, Seq<char>>(plan.filters@[i]@)
                &&& plan.links@ == chain_links(filters@.len())
            },
            Err(m) => exists|i: int| 0 <= i < filters@.len()
                && (forall|j: int| 0 <= j < i ==> video_filter_view(#[trigger] filters@[j], image_width, image_height) is Ok)
                && video_filter_view(filters@[i], image_width, image_height) == Err::<GenericFilterView, Seq<char>>(m@),
        },
{
    let mut generic: Vec<GenericFilter> = Vec::new();
    let mut i: usize = 0;
    while i < filters.len()
        invariant
            i <= filters.len(),
            generic@.len() == i,
            forall|j: int| 0 <= j < i ==>
                video_filter_view(#[trigger] filters@[j], image_width, image_height) == Ok::<GenericFilterView, Seq<char>>(generic@[j]@),
        decreases filters.len() - i,
    {
        match filters[i].as_generic_filter(image_width, image_height) {
            Ok(g) => {
                generic.push(g);
            },
            Err(m) => {
                assert(forall|j: int| 0 <= j < i ==> video_filter_view(#[trigger] filters@[j], image_width, image_height) is Ok);
                return Err(m);
            },
        }
        i = i + 1;
    }
    if filters.len() == 0 {
        return Ok(None);
    }
    let links = chain(filters.len());
    Ok(Some(FilterGraphPlan { filters: generic, links }))
}

} // verus!
