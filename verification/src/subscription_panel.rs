//! The line structure of the Subscription panel: which line comes where for
//! a set of fetched outputs, provider errors and the cache notice. Styling
//! and text are filled in at the edge, line by line.

use vstd::prelude::*;

verus! {

/// What the panel's layout needs to know of one fetched output.
#[derive(Debug, Clone, Copy, PartialEq, Eq, Structural)]
pub struct OutputShape {
    /// How many usage metrics it reports.
    pub metrics: usize,
    /// Whether it carries an account e-mail address.
    pub has_email: bool,
    /// Whether it carries a plan name.
    pub has_plan: bool,
}

/// One line of the panel.
#[derive(Debug, Clone, Copy, PartialEq, Eq, Structural)]
pub enum PanelLine {
    /// The cached-data notice.
    Notice,
    /// An empty separator line.
    Blank,
    /// The name of output `i`.
    OutputName(usize),
    /// Metric `m` of output `i`: label, remaining amount, bar and reset.
    Metric(usize, usize),
    /// The e-mail line of output `i`.
    Email(usize),
    /// The plan line of output `i`.
    Plan(usize),
    /// The heading above the provider errors.
    ErrorsTitle,
    /// Provider error `e`.
    Error(usize),
}

/// The lines of output `i`: its name, one line per metric, then its e-mail
/// and plan lines when it has them.
pub open spec fn output_block(i: int, shape: OutputShape) -> Seq<PanelLine> {
    seq![PanelLine::OutputName(i as usize)]
        + Seq::new(shape.metrics as nat, |m: int| PanelLine::Metric(i as usize, m as usize))
        + if shape.has_email { seq![PanelLine::Email(i as usize)] } else { Seq::empty() }
        + if shape.has_plan { seq![PanelLine::Plan(i as usize)] } else { Seq::empty() }
}

/// The outputs' blocks in order, a blank line between consecutive ones.
pub open spec fn output_lines(shapes: Seq<OutputShape>) -> Seq<PanelLine>
    decreases shapes.len(),
{
    if shapes.len() == 0 {
        Seq::empty()
    } else {
        let before = output_lines(shapes.drop_last());
        let gap = if shapes.len() > 1 { seq![PanelLine::Blank] } else { Seq::empty() };
        before + gap + output_block(shapes.len() - 1, shapes.last())
    }
}

/// The error section: nothing without errors; otherwise a blank line when
/// outputs precede it, the heading, and one line per error.
pub open spec fn error_lines(after_outputs: bool, errors: nat) -> Seq<PanelLine> {
    if errors == 0 {
        Seq::empty()
    } else {
        (if after_outputs { seq![PanelLine::Blank] } else { Seq::empty() })
            + seq![PanelLine::ErrorsTitle]
            + Seq::new(errors, |e: int| PanelLine::Error(e as usize))
    }
}

/// The whole panel: the notice and a blank line when shown, the outputs,
/// then the errors.
pub open spec fn panel_lines(shapes: Seq<OutputShape>, errors: nat, notice: bool) -> Seq<PanelLine> {
    (if notice { seq![PanelLine::Notice, PanelLine::Blank] } else { Seq::empty() })
        + output_lines(shapes)
        + error_lines(shapes.len() > 0, errors)
}

/// The number of lines of one output's block.
pub open spec fn block_len(shape: OutputShape) -> int {
    1 + shape.metrics + (if shape.has_email { 1int } else { 0int }) + (if shape.has_plan { 1int } else { 0int })
}

/// The number of lines all the outputs' blocks take, separators aside.
pub open spec fn blocks_len(shapes: Seq<OutputShape>) -> int
    decreases shapes.len(),
{
    if shapes.len() == 0 {
        0
    } else {
        blocks_len(shapes.drop_last()) + block_len(shapes.last())
    }
}

/// How long the outputs' lines are.
proof fn lemma_output_lines_len(shapes: Seq<OutputShape>)
    ensures
        output_lines(shapes).len() == blocks_len(shapes) + if shapes.len() > 0 { shapes.len() - 1 } else { 0 },
        blocks_len(shapes) >= shapes.len(),
    decreases shapes.len(),
{
    if shapes.len() > 0 {
        lemma_output_lines_len(shapes.drop_last());
    }
}

/// Appends output `i`'s block.
fn push_block(lines: &mut Vec<PanelLine>, i: usize, shape: OutputShape)
    ensures
        final(lines)@ == old(lines)@ + output_block(i as int, shape),
{
    lines.push(PanelLine::OutputName(i));
    let ghost start = lines@;
    let mut m: usize = 0;
    while m < shape.metrics
        invariant
            m <= shape.metrics,
            lines@ == start + Seq::new(m as nat, |k: int| PanelLine::Metric(i, k as usize)),
        decreases shape.metrics - m,
    {
        lines.push(PanelLine::Metric(i, m));
        m = m + 1;
        assert(lines@ =~= start + Seq::new(m as nat, |k: int| PanelLine::Metric(i, k as usize)));
    }
    if shape.has_email {
        lines.push(PanelLine::Email(i));
    }
    if shape.has_plan {
        lines.push(PanelLine::Plan(i));
    }
    assert(lines@ =~= old(lines)@ + output_block(i as int, shape));
}

/// Lays out the panel: `shapes` describes the outputs in order, `errors`
/// counts the provider errors, and `notice` says whether the cached-data
/// notice is shown (see `cache_display_notice`).
pub fn subscription_lines(shapes: &Vec<OutputShape>, errors: usize, notice: bool) -> (r: Vec<PanelLine>)
    ensures
        r@ == panel_lines(shapes@, errors as nat, notice),
{
    let mut lines: Vec<PanelLine> = Vec::new();
    if notice {
        lines.push(PanelLine::Notice);
        lines.push(PanelLine::Blank);
    }
    let ghost head = lines@;
    let mut i: usize = 0;
    proof {
        assert(shapes@.take(0) =~= Seq::<OutputShape>::empty());
        assert(lines@ =~= head + output_lines(shapes@.take(0)));
    }
    while i < shapes.len()
        invariant
            i <= shapes@.len(),
            lines@ == head + output_lines(shapes@.take(i as int)),
        decreases shapes@.len() - i,
    {
        let ghost taken = shapes@.take(i as int + 1);
        proof {
            assert(taken.drop_last() =~= shapes@.take(i as int));
        }
        if i > 0 {
            lines.push(PanelLine::Blank);
        }
        push_block(&mut lines, i, shapes[i]);
        i = i + 1;
        proof {
            assert(lines@ =~= head + output_lines(taken));
        }
    }
    proof {
        assert(shapes@.take(shapes@.len() as int) =~= shapes@);
    }
    if errors > 0 {
        if shapes.len() > 0 {
            lines.push(PanelLine::Blank);
        }
        lines.push(PanelLine::ErrorsTitle);
        let ghost before_errors = lines@;
        let mut e: usize = 0;
        while e < errors
            invariant
                e <= errors,
                lines@ == before_errors + Seq::new(e as nat, |k: int| PanelLine::Error(k as usize)),
            decreases errors - e,
        {
            lines.push(PanelLine::Error(e));
            e = e + 1;
            assert(lines@ =~= before_errors + Seq::new(e as nat, |k: int| PanelLine::Error(k as usize)));
        }
    }
    assert(lines@ =~= panel_lines(shapes@, errors as nat, notice));
    lines
}

/// How many lines the panel takes: each output's name, metrics, e-mail and
/// plan lines, a blank line between outputs, the error heading and errors
/// (after a blank line when outputs precede them), and two lines for the
/// notice.
pub proof fn law_panel_line_count(shapes: Seq<OutputShape>, errors: nat, notice: bool)
    ensures
        panel_lines(shapes, errors, notice).len()
            == (if notice { 2int } else { 0int })
                + blocks_len(shapes)
                + (if shapes.len() > 0 { shapes.len() - 1 } else { 0 })
                + (if errors > 0 { errors + 1 + if shapes.len() > 0 { 1int } else { 0int } } else { 0 }),
{
    lemma_output_lines_len(shapes);
}

} // verus!
