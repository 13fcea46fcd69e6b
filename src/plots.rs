use vstd::prelude::*;
use crate::error::AnalysisError;
use crate::ieee::Real;
use crate::labels::{component_label, component_prefix, decimal};
use crate::report::{copy_names, LoadingTable};

verus! {

/// The loading plot: one point per variable, at its loadings on the first
/// two factors.
#[derive(Debug)]
pub struct LoadingPlot {
    pub variables: Vec<String>,
    pub component_x: String,
    pub component_y: String,
    pub x_loadings: Vec<Real>,
    pub y_loadings: Vec<Real>,
}

/// The indices `i < n`, in order, of the variables whose row in `rows`
/// exists and holds at least two loadings.
pub open spec fn plotted(rows: Seq<Vec<Real>>, n: nat) -> Seq<int>
    decreases n,
{
    if n == 0 {
        Seq::empty()
    } else {
        let i = n - 1;
        plotted(rows, i as nat) + if i < rows.len() && rows[i]@.len() >= 2 { seq![i] } else { Seq::empty() }
    }
}

proof fn lemma_plotted_bounds(rows: Seq<Vec<Real>>, n: nat)
    ensures
        forall|t: int| 0 <= t < plotted(rows, n).len() ==> {
            let i = #[trigger] plotted(rows, n)[t];
            &&& 0 <= i < n
            &&& i < rows.len()
            &&& rows[i]@.len() >= 2
        },
    decreases n,
{
    if n > 0 {
        let i = n - 1;
        lemma_plotted_bounds(rows, i as nat);
        let before = plotted(rows, i as nat);
        let tail = if i < rows.len() && rows[i]@.len() >= 2 { seq![i] } else { Seq::<int>::empty() };
        assert(plotted(rows, n) =~= before + tail);
        assert forall|t: int| 0 <= t < plotted(rows, n).len() implies {
            let j = #[trigger] plotted(rows, n)[t];
            &&& 0 <= j < n
            &&& j < rows.len()
            &&& rows[j]@.len() >= 2
        } by {
            if t < before.len() {
                assert(plotted(rows, n)[t] == before[t]);
            } else {
                assert(plotted(rows, n)[t] == tail[t - before.len()]);
            }
        }
    }
}

/// The table a loading plot is drawn from: the pattern matrix if there is
/// one, else the rotated matrix, else the component matrix.
pub open spec fn plot_source<'a>(
    pattern: Option<&'a LoadingTable>,
    rotated: Option<&'a LoadingTable>,
    component: Option<&'a LoadingTable>,
) -> Option<&'a LoadingTable> {
    if pattern is Some {
        pattern
    } else if rotated is Some {
        rotated
    } else {
        component
    }
}

/// The loading plot of the best table available. It fails with
/// `MissingInput` when there is no table, or when no variable has loadings
/// on two factors.
pub fn generate_loading_plots(
    pattern: Option<&LoadingTable>,
    rotated: Option<&LoadingTable>,
    component: Option<&LoadingTable>,
) -> (r: Result<LoadingPlot, AnalysisError>)
    ensures
        plot_source(pattern, rotated, component) is None ==> r == Err::<LoadingPlot, AnalysisError>(AnalysisError::MissingInput),
        plot_source(pattern, rotated, component) matches Some(t) ==> {
            let pts = plotted(t.components@, t.variable_order@.len());
            &&& pts.len() == 0 ==> r == Err::<LoadingPlot, AnalysisError>(AnalysisError::MissingInput)
            &&& pts.len() > 0 ==> (r matches Ok(plot) && {
                &&& plot.component_x@ == component_prefix() + decimal(1)
                &&& plot.component_y@ == component_prefix() + decimal(2)
                &&& plot.variables@.len() == pts.len()
                &&& plot.x_loadings@.len() == pts.len()
                &&& plot.y_loadings@.len() == pts.len()
                &&& forall|s: int| 0 <= s < pts.len() ==> {
                    &&& (#[trigger] plot.variables@[s])@ == t.variable_order@[pts[s]]@
                    &&& plot.x_loadings@[s] == t.components@[pts[s]]@[0]
                    &&& plot.y_loadings@[s] == t.components@[pts[s]]@[1]
                }
            })
        },
{
    let source = if pattern.is_some() {
        pattern
    } else if rotated.is_some() {
        rotated
    } else {
        component
    };
    let t = match source {
        Some(t) => t,
        None => {
            return Err(AnalysisError::MissingInput);
        },
    };
    let ghost rows = t.components@;
    let mut variables: Vec<String> = Vec::new();
    let mut xs: Vec<Real> = Vec::new();
    let mut ys: Vec<Real> = Vec::new();
    let mut i: usize = 0;
    while i < t.variable_order.len()
        invariant
            rows == t.components@,
            i <= t.variable_order@.len(),
            variables@.len() == plotted(rows, i as nat).len(),
            xs@.len() == plotted(rows, i as nat).len(),
            ys@.len() == plotted(rows, i as nat).len(),
            forall|s: int| 0 <= s < plotted(rows, i as nat).len() ==> {
                let v = #[trigger] plotted(rows, i as nat)[s];
                &&& variables@[s]@ == t.variable_order@[v]@
                &&& xs@[s] == rows[v]@[0]
                &&& ys@[s] == rows[v]@[1]
            },
        decreases t.variable_order@.len() - i,
    {
        proof {
            lemma_plotted_bounds(rows, i as nat);
        }
        if i < t.components.len() && t.components[i].len() >= 2 {
            variables.push(t.variable_order[i].clone());
            xs.push(t.components[i][0]);
            ys.push(t.components[i][1]);
        }
        proof {
            let before = plotted(rows, i as nat);
            let after = plotted(rows, (i + 1) as nat);
            assert(after =~= before + if (i as int) < rows.len() && rows[i as int]@.len() >= 2 {
                seq![i as int]
            } else {
                Seq::<int>::empty()
            });
            assert forall|s: int| 0 <= s < after.len() implies {
                let v = #[trigger] after[s];
                &&& variables@[s]@ == t.variable_order@[v]@
                &&& xs@[s] == rows[v]@[0]
                &&& ys@[s] == rows[v]@[1]
            } by {
                if s < before.len() {
                    assert(after[s] == before[s]);
                }
            }
        }
        i += 1;
    }
    if variables.len() == 0 {
        return Err(AnalysisError::MissingInput);
    }
    Ok(LoadingPlot {
        variables,
        component_x: component_label(1),
        component_y: component_label(2),
        x_loadings: xs,
        y_loadings: ys,
    })
}

} // verus!
