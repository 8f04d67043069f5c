//! The kinds of side panels and where they are placed.
use vstd::prelude::*;

use crate::config::LapceIcons;

verus! {

/// A panel of the workbench.
#[derive(Clone, Copy, PartialEq, Eq, Hash, Debug, Structural)]
pub enum PanelKind {
    Terminal,
    FileExplorer,
    SourceControl,
    Search,
}

/// A slot for panels: the two halves of each of the left, bottom and right
/// containers.
#[derive(Clone, Copy, PartialEq, Eq, Hash, Debug, Structural)]
pub enum PanelPosition {
    LeftTop,
    LeftBottom,
    BottomLeft,
    BottomRight,
    RightTop,
    RightBottom,
}

/// The panels placed in each slot, in display order.
#[derive(Clone, Debug)]
pub struct PanelOrder {
    pub slots: Vec<(PanelPosition, Vec<PanelKind>)>,
}

/// The index of the first `kind` in `panels`.
pub open spec fn first_index(panels: Seq<PanelKind>, kind: PanelKind) -> Option<int>
    decreases panels.len(),
{
    if panels.len() == 0 {
        None
    } else if panels[0] == kind {
        Some(0)
    } else {
        match first_index(panels.drop_first(), kind) {
            Some(i) => Some(i + 1),
            None => None,
        }
    }
}

/// Where `kind` is placed: in the first slot that holds it, at its first
/// index there.
pub open spec fn spec_position(slots: Seq<(PanelPosition, Vec<PanelKind>)>, kind: PanelKind) -> Option<(usize, PanelPosition)>
    decreases slots.len(),
{
    if slots.len() == 0 {
        None
    } else {
        match first_index(slots[0].1@, kind) {
            Some(i) => Some((i as usize, slots[0].0)),
            None => spec_position(slots.drop_first(), kind),
        }
    }
}

pub proof fn lemma_first_index(panels: Seq<PanelKind>, kind: PanelKind)
    ensures
        first_index(panels, kind) matches Some(i) ==> 0 <= i < panels.len() && panels[i] == kind
            && forall|j: int| 0 <= j < i ==> panels[j] != kind,
        first_index(panels, kind) is None ==> forall|j: int| 0 <= j < panels.len() ==> panels[j] != kind,
    decreases panels.len(),
{
    if panels.len() > 0 && panels[0] != kind {
        lemma_first_index(panels.drop_first(), kind);
        assert forall|j: int| 1 <= j < panels.len() implies panels[j] == panels.drop_first()[j - 1] by {}
    }
}

fn find_panel(panels: &Vec<PanelKind>, kind: PanelKind) -> (r: Option<usize>)
    ensures
        match first_index(panels@, kind) {
            Some(i) => r == Some(i as usize),
            None => r is None,
        },
{
    let mut i: usize = 0;
    while i < panels.len()
        invariant
            i <= panels@.len(),
            forall|j: int| 0 <= j < i ==> panels@[j] != kind,
        decreases panels.len() - i,
    {
        if panels[i] == kind {
            proof {
                lemma_first_index(panels@, kind);
                if let Some(k) = first_index(panels@, kind) {
                    assert(k >= i) by {
                        if k < i {
                            assert(panels@[k] == kind);
                        }
                    }
                }
            }
            return Some(i);
        }
        i = i + 1;
    }
    proof {
        lemma_first_index(panels@, kind);
        if let Some(k) = first_index(panels@, kind) {
            assert(panels@[k] == kind);
        }
    }
    None
}

impl PanelKind {
    /// The name of the icon of the panel.
    pub fn svg_name(&self) -> (r: &'static str)
        ensures
            r@ == (match *self {
                PanelKind::Terminal => "terminal"@,
                PanelKind::FileExplorer => "file_explorer"@,
                PanelKind::SourceControl => "scm"@,
                PanelKind::Search => "search"@,
            }),
    {
        match self {
            PanelKind::Terminal => LapceIcons::TERMINAL,
            PanelKind::FileExplorer => LapceIcons::FILE_EXPLORER,
            PanelKind::SourceControl => LapceIcons::SCM,
            PanelKind::Search => LapceIcons::SEARCH,
        }
    }

    /// The slot that holds this panel and its index there, if any slot does.
    pub fn position(&self, order: &PanelOrder) -> (r: Option<(usize, PanelPosition)>)
        ensures
            r == spec_position(order.slots@, *self),
    {
        let mut k: usize = 0;
        let n = order.slots.len();
        assert(order.slots@.skip(0) =~= order.slots@);
        while k < n
            invariant
                n == order.slots@.len(),
                k <= n,
                spec_position(order.slots@.skip(k as int), *self) == spec_position(order.slots@, *self),
            decreases n - k,
        {
            assert(order.slots@.skip(k as int).drop_first() =~= order.slots@.skip(k + 1));
            let (pos, panels) = &order.slots[k];
            match find_panel(panels, *self) {
                Some(index) => {
                    return Some((index, *pos));
                },
                None => {},
            }
            k = k + 1;
        }
        None
    }

    /// The slot a panel goes to when it has none yet.
    pub fn default_position(&self) -> (r: PanelPosition)
        ensures
            r == (match *self {
                PanelKind::Terminal | PanelKind::Search => PanelPosition::BottomLeft,
                PanelKind::FileExplorer | PanelKind::SourceControl => PanelPosition::LeftTop,
            }),
    {
        match self {
            PanelKind::Terminal => PanelPosition::BottomLeft,
            PanelKind::FileExplorer => PanelPosition::LeftTop,
            PanelKind::SourceControl => PanelPosition::LeftTop,
            PanelKind::Search => PanelPosition::BottomLeft,
        }
    }
}

/// Whether slot `pos` of `order` holds `kind` at index `i`.
pub open spec fn placed_at(order: Seq<(PanelPosition, Vec<PanelKind>)>, kind: PanelKind, i: usize, pos: PanelPosition) -> bool {
    exists|s: int|
        0 <= s < order.len() && order[s].0 == pos && i < order[s].1@.len() && #[trigger] order[s].1@[i as int]
            == kind
}

/// The position found for a panel names a slot of the order that holds the
/// panel at the reported index; no position is found only for a panel that
/// no slot holds.
pub proof fn law_position_is_where_the_panel_is(order: Seq<(PanelPosition, Vec<PanelKind>)>, kind: PanelKind)
    ensures
        spec_position(order, kind) matches Some((i, pos)) ==> placed_at(order, kind, i, pos),
        spec_position(order, kind) is None ==> forall|s: int, j: int|
            0 <= s < order.len() && 0 <= j < order[s].1@.len() ==> #[trigger] order[s].1@[j] != kind,
    decreases order.len(),
{
    if order.len() > 0 {
        lemma_first_index(order[0].1@, kind);
        law_position_is_where_the_panel_is(order.drop_first(), kind);
        match first_index(order[0].1@, kind) {
            Some(i) => {
                assert(order[0].1@.len() == order[0].1.len());
                assert((i as usize) as int == i);
                assert(order[0].1@[(i as usize) as int] == kind);
                assert(placed_at(order, kind, i as usize, order[0].0));
            },
            None => {
                if let Some((i, pos)) = spec_position(order, kind) {
                    assert(placed_at(order.drop_first(), kind, i, pos));
                    let s = choose|s: int|
                        0 <= s < order.drop_first().len() && order.drop_first()[s].0 == pos && i
                            < order.drop_first()[s].1@.len() && #[trigger] order.drop_first()[s].1@[i as int]
                            == kind;
                    assert(order[s + 1] == order.drop_first()[s]);
                    assert(order[s + 1].1@[i as int] == kind);
                    assert(placed_at(order, kind, i, pos));
                }
                assert forall|s: int, j: int|
                    0 <= s < order.len() && 0 <= j < order[s].1@.len() && spec_position(order, kind) is None
                    implies #[trigger] order[s].1@[j] != kind by {
                    if s > 0 {
                        assert(order[s] == order.drop_first()[s - 1]);
                    }
                }
            },
        }
    }
}

} // verus!
