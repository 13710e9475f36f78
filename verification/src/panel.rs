//! The applet's messages and the layout of its panel row: which monitors
//! are shown, in what order, with which labels, colours and separators.
use vstd::prelude::*;
use crate::color::Status;
use crate::config::{LabelConfig, Labels, MonitorToggles};
use crate::hexcolor::color_value;

verus! {

/// Messages the applet can receive.
#[derive(Debug, Clone, Copy, PartialEq, Eq, Structural)]
pub enum Message {
    /// Time to refresh the readings.
    Tick,
}

/// How a piece of panel text is coloured.
#[derive(Debug, Clone, Copy, PartialEq, Eq, Structural)]
pub enum Tint {
    /// The theme's default text colour.
    Theme,
    /// A fixed `0xRRGGBB` colour.
    Rgb(u32),
    /// The warning colour of a status (only Medium and High stand out).
    Warning(Status),
}

/// One piece of text in the panel row.
#[derive(Debug, Clone)]
pub struct Piece {
    pub text: String,
    pub tint: Tint,
}

impl View for Piece {
    type V = (Seq<char>, Tint);

    open spec fn view(&self) -> (Seq<char>, Tint) {
        (self.text@, self.tint)
    }
}

/// A formatted reading together with the status it was classified as.
#[derive(Debug, Clone)]
pub struct StatusReading {
    pub text: String,
    pub status: Status,
}

/// Formatted memory use: the used and the total amount, and the status of
/// the share in use.
#[derive(Debug, Clone)]
pub struct MemoryReading {
    pub used: String,
    pub total: String,
    pub status: Status,
}

/// Formatted network speeds.
#[derive(Debug, Clone)]
pub struct NetworkReading {
    pub download: String,
    pub upload: String,
}

/// The formatted readings of one refresh. A temperature is `None` when no
/// sensor for it was found.
#[derive(Debug, Clone)]
pub struct Readings {
    pub cpu: StatusReading,
    pub cpu_temp: Option<StatusReading>,
    pub gpu_temp: Option<StatusReading>,
    pub memory: MemoryReading,
    pub network: NetworkReading,
}

/// The view of a sequence of pieces.
pub open spec fn pieces_view(s: Seq<Piece>) -> Seq<(Seq<char>, Tint)> {
    s.map_values(|p: Piece| p@)
}

/// The piece put between two monitors.
pub open spec fn separator() -> (Seq<char>, Tint) {
    (" | "@, Tint::Theme)
}

/// The colour of a label, as its colour text denotes it.
pub open spec fn label_tint(l: LabelConfig) -> Tint {
    Tint::Rgb(color_value(l.color@))
}

/// A label in its colour, then a reading in its status's warning colour.
pub open spec fn status_group(l: LabelConfig, r: StatusReading) -> Seq<(Seq<char>, Tint)> {
    seq![(l.name@, label_tint(l)), (r.text@, Tint::Warning(r.status))]
}

/// The RAM label in its colour, then the used amount in its status's warning
/// colour, then "/" and the total in the theme colour.
pub open spec fn memory_group(l: LabelConfig, m: MemoryReading) -> Seq<(Seq<char>, Tint)> {
    seq![
        (l.name@, label_tint(l)),
        (m.used@, Tint::Warning(m.status)),
        ("/"@, Tint::Theme),
        (m.total@, Tint::Theme),
    ]
}

/// A coloured down arrow and the download speed, then a coloured up arrow
/// and the upload speed; the speeds are in the theme colour.
pub open spec fn network_group(down: LabelConfig, up: LabelConfig, n: NetworkReading) -> Seq<
    (Seq<char>, Tint),
> {
    seq![
        ("\u{2193}"@, label_tint(down)),
        (n.download@, Tint::Theme),
        (" \u{2191}"@, label_tint(up)),
        (n.upload@, Tint::Theme),
    ]
}

/// The group `g` if `shown`, else nothing.
pub open spec fn when(shown: bool, g: Seq<(Seq<char>, Tint)>) -> Seq<Seq<(Seq<char>, Tint)>> {
    if shown {
        seq![g]
    } else {
        Seq::empty()
    }
}

/// The groups of pieces shown, in order: CPU usage, CPU temperature, GPU
/// temperature, memory, network. A monitor is shown when its toggle is on
/// and, for a temperature, when it has a reading.
pub open spec fn shown_groups(t: MonitorToggles, l: Labels, r: Readings) -> Seq<
    Seq<(Seq<char>, Tint)>,
> {
    when(t.cpu_usage, status_group(l.cpu, r.cpu)) + when(
        t.cpu_temperature && r.cpu_temp is Some,
        status_group(l.cpu_temp, r.cpu_temp->0),
    ) + when(t.gpu_temperature && r.gpu_temp is Some, status_group(l.gpu_temp, r.gpu_temp->0))
        + when(t.memory, memory_group(l.ram, r.memory)) + when(
        t.network,
        network_group(l.network_download, l.network_upload, r.network),
    )
}

/// The groups one after another, with a separator between each two.
pub open spec fn join_groups(g: Seq<Seq<(Seq<char>, Tint)>>) -> Seq<(Seq<char>, Tint)>
    decreases g.len(),
{
    if g.len() == 0 {
        Seq::empty()
    } else if g.len() == 1 {
        g[0]
    } else {
        join_groups(g.drop_last()) + seq![separator()] + g.last()
    }
}

/// The panel row: the shown groups separated by `" | "`, or a single empty
/// text when no monitor is shown.
pub open spec fn row_spec(t: MonitorToggles, l: Labels, r: Readings) -> Seq<(Seq<char>, Tint)> {
    let g = shown_groups(t, l, r);
    if g.len() == 0 {
        seq![(""@, Tint::Theme)]
    } else {
        join_groups(g)
    }
}

/// Every shown group starts with a piece in a fixed colour (a label or an
/// arrow) and has at least two pieces.
proof fn lemma_shown_groups_shape(t: MonitorToggles, l: Labels, r: Readings)
    ensures
        forall|i: int|
            0 <= i < shown_groups(t, l, r).len() ==> (#[trigger] shown_groups(t, l, r)[i]).len()
                >= 2 && shown_groups(t, l, r)[i][0].1 is Rgb,
{
    let g = shown_groups(t, l, r);
    let a = when(t.cpu_usage, status_group(l.cpu, r.cpu));
    let b = when(
        t.cpu_temperature && r.cpu_temp is Some,
        status_group(l.cpu_temp, r.cpu_temp->0),
    );
    let c = when(t.gpu_temperature && r.gpu_temp is Some, status_group(l.gpu_temp, r.gpu_temp->0));
    let d = when(t.memory, memory_group(l.ram, r.memory));
    let e = when(t.network, network_group(l.network_download, l.network_upload, r.network));
    assert forall|i: int| 0 <= i < g.len() implies (#[trigger] g[i]).len() >= 2 && g[i][0].1 is Rgb by {
        let ab = a + b;
        let abc = ab + c;
        let abcd = abc + d;
        assert(g == abcd + e);
        if i < abcd.len() {
            assert(g[i] == abcd[i]);
            if i < abc.len() {
                assert(abcd[i] == abc[i]);
                if i < ab.len() {
                    assert(abc[i] == ab[i]);
                    if i < a.len() {
                        assert(ab[i] == a[i]);
                    } else {
                        assert(ab[i] == b[i - a.len()]);
                    }
                } else {
                    assert(abc[i] == c[i - ab.len()]);
                }
            } else {
                assert(abcd[i] == d[i - abc.len()]);
            }
        } else {
            assert(g[i] == e[i - abcd.len()]);
        }
    }
}

proof fn lemma_join_first(g: Seq<Seq<(Seq<char>, Tint)>>)
    requires
        g.len() > 0,
        forall|i: int| 0 <= i < g.len() ==> (#[trigger] g[i]).len() > 0,
    ensures
        join_groups(g).len() > 0,
        join_groups(g)[0] == g[0][0],
    decreases g.len(),
{
    if g.len() > 1 {
        let h = g.drop_last();
        assert forall|i: int| 0 <= i < h.len() implies (#[trigger] h[i]).len() > 0 by {
            assert(h[i] == g[i]);
        }
        lemma_join_first(h);
        assert(h[0] == g[0]);
    }
}

/// The panel row always holds at least one piece.
pub proof fn lemma_row_never_empty(t: MonitorToggles, l: Labels, r: Readings)
    ensures
        row_spec(t, l, r).len() > 0,
{
    lemma_shown_groups_shape(t, l, r);
    if shown_groups(t, l, r).len() > 0 {
        lemma_join_first(shown_groups(t, l, r));
    }
}

/// A row with monitors in it never starts with a separator: it starts with
/// the first shown monitor's label (or arrow), in that label's colour.
pub proof fn lemma_row_starts_with_label(t: MonitorToggles, l: Labels, r: Readings)
    requires
        shown_groups(t, l, r).len() > 0,
    ensures
        row_spec(t, l, r)[0] == shown_groups(t, l, r)[0][0],
        row_spec(t, l, r)[0].1 is Rgb,
        row_spec(t, l, r)[0] != separator(),
{
    lemma_shown_groups_shape(t, l, r);
    lemma_join_first(shown_groups(t, l, r));
}

/// With every monitor switched off, the row is a single empty text.
pub proof fn lemma_all_off_row(t: MonitorToggles, l: Labels, r: Readings)
    requires
        !t.cpu_usage,
        !t.cpu_temperature,
        !t.gpu_temperature,
        !t.memory,
        !t.network,
    ensures
        row_spec(t, l, r) == seq![(""@, Tint::Theme)],
{
    assert(shown_groups(t, l, r) =~= Seq::<Seq<(Seq<char>, Tint)>>::empty());
}

/// 1 when `b` holds, else 0.
pub open spec fn count(b: bool) -> int {
    if b {
        1
    } else {
        0
    }
}

/// Appending a group that may or may not be shown to a list of groups.
proof fn lemma_join_stage(
    g: Seq<Seq<(Seq<char>, Tint)>>,
    shown: bool,
    x: Seq<(Seq<char>, Tint)>,
)
    requires
        x.len() > 0,
        join_groups(g).len() == 0 <==> g.len() == 0,
    ensures
        ({
            let j = join_groups(g);
            let j2 = join_groups(g + when(shown, x));
            let jl = j.len() as int;
            let xl = x.len() as int;
            &&& j2.len() == 0 <==> (g + when(shown, x)).len() == 0
            &&& j2.len() == (if !shown {
                j.len() as int
            } else if jl == 0 {
                xl
            } else {
                jl + 1 + xl
            })
            &&& jl <= j2.len()
            &&& j2.subrange(0, jl) == j
            &&& shown && jl == 0 ==> j2.subrange(0, xl) == x
            &&& shown && jl > 0 ==> j2.subrange(jl + 1, jl + 1 + xl) == x
            &&& shown && jl > 0 ==> j2.subrange(jl, jl + 1) == seq![
                separator(),
            ]
        }),
{
    let j = join_groups(g);
    let jl = j.len() as int;
    let xl = x.len() as int;
    if !shown {
        assert(g + when(shown, x) =~= g);
        assert(j.subrange(0, j.len() as int) =~= j);
    } else {
        let g2 = g + when(shown, x);
        assert(g2 =~= g.push(x));
        assert(g2.drop_last() =~= g);
        assert(g2.last() == x);
        let j2 = join_groups(g2);
        if g.len() == 0 {
            assert(g2.len() == 1);
            assert(j2 == x);
            assert(j2.subrange(0, x.len() as int) =~= x);
            assert(j2.subrange(0, 0) =~= j);
        } else {
            assert(j2 == j + seq![separator()] + x);
            assert(j2.subrange(0, j.len() as int) =~= j);
            assert(j2.subrange(jl + 1, jl + 1 + xl) =~= x);
            assert(j2.subrange(jl, jl + 1) =~= seq![separator()]);
        }
    }
}

/// What stands in a prefix of a sequence stands in the sequence.
proof fn lemma_in_prefix(
    j: Seq<(Seq<char>, Tint)>,
    j2: Seq<(Seq<char>, Tint)>,
    a: int,
    b: int,
    x: Seq<(Seq<char>, Tint)>,
)
    requires
        j.len() <= j2.len(),
        j2.subrange(0, j.len() as int) == j,
        0 <= a <= b <= j.len(),
        j.subrange(a, b) == x,
    ensures
        j2.subrange(a, b) == x,
{
    assert(j2.subrange(a, b) =~= j2.subrange(0, j.len() as int).subrange(a, b));
}

/// The layout of the panel row, piece by piece. Writing `c`, `ct`, `gt`,
/// `m`, `n` for "CPU usage shown", "CPU temperature shown" (its toggle on and
/// a reading present), "GPU temperature shown", "memory shown" and "network
/// shown", the groups start at the positions `0`, `p_ct`, `p_gt`, `p_m`,
/// `p_n` below (each shown group takes its pieces plus one separator slot):
/// - each shown monitor's pieces stand at its position: its label in the
///   label's colour and its own reading (memory: used in its status colour,
///   "/", total; network: coloured arrows and the two speeds);
/// - a `" | "` separator stands just before every shown group but the first;
/// - the row has exactly the pieces of the shown groups and the separators,
///   or is a single empty text when nothing is shown.
/// So each group depends only on its own toggle and its own reading.
pub proof fn lemma_row_layout(t: MonitorToggles, l: Labels, r: Readings)
    ensures
        ({
            let row = row_spec(t, l, r);
            let c = t.cpu_usage;
            let ct = t.cpu_temperature && r.cpu_temp is Some;
            let gt = t.gpu_temperature && r.gpu_temp is Some;
            let m = t.memory;
            let n = t.network;
            let p_ct = 3 * count(c);
            let p_gt = p_ct + 3 * count(ct);
            let p_m = p_gt + 3 * count(gt);
            let p_n = p_m + 5 * count(m);
            let end = p_n + 5 * count(n);
            let sep = seq![(" | "@, Tint::Theme)];
            &&& end == 0 ==> row == seq![(""@, Tint::Theme)]
            &&& end > 0 ==> row.len() == end - 1
            &&& c ==> row.subrange(0, 2) == seq![
                (l.cpu.name@, Tint::Rgb(color_value(l.cpu.color@))),
                (r.cpu.text@, Tint::Warning(r.cpu.status)),
            ]
            &&& ct ==> row.subrange(p_ct, p_ct + 2) == seq![
                (l.cpu_temp.name@, Tint::Rgb(color_value(l.cpu_temp.color@))),
                (r.cpu_temp->0.text@, Tint::Warning(r.cpu_temp->0.status)),
            ]
            &&& ct && p_ct > 0 ==> row.subrange(p_ct - 1, p_ct) == sep
            &&& gt ==> row.subrange(p_gt, p_gt + 2) == seq![
                (l.gpu_temp.name@, Tint::Rgb(color_value(l.gpu_temp.color@))),
                (r.gpu_temp->0.text@, Tint::Warning(r.gpu_temp->0.status)),
            ]
            &&& gt && p_gt > 0 ==> row.subrange(p_gt - 1, p_gt) == sep
            &&& m ==> row.subrange(p_m, p_m + 4) == seq![
                (l.ram.name@, Tint::Rgb(color_value(l.ram.color@))),
                (r.memory.used@, Tint::Warning(r.memory.status)),
                ("/"@, Tint::Theme),
                (r.memory.total@, Tint::Theme),
            ]
            &&& m && p_m > 0 ==> row.subrange(p_m - 1, p_m) == sep
            &&& n ==> row.subrange(p_n, p_n + 4) == seq![
                ("\u{2193}"@, Tint::Rgb(color_value(l.network_download.color@))),
                (r.network.download@, Tint::Theme),
                (" \u{2191}"@, Tint::Rgb(color_value(l.network_upload.color@))),
                (r.network.upload@, Tint::Theme),
            ]
            &&& n && p_n > 0 ==> row.subrange(p_n - 1, p_n) == sep
        }),
{
    let c = t.cpu_usage;
    let ct = t.cpu_temperature && r.cpu_temp is Some;
    let gt = t.gpu_temperature && r.gpu_temp is Some;
    let m = t.memory;
    let n = t.network;
    let xa = status_group(l.cpu, r.cpu);
    let xb = status_group(l.cpu_temp, r.cpu_temp->0);
    let xc = status_group(l.gpu_temp, r.gpu_temp->0);
    let xd = memory_group(l.ram, r.memory);
    let xe = network_group(l.network_download, l.network_upload, r.network);
    let g0 = Seq::<Seq<(Seq<char>, Tint)>>::empty();
    let g1 = g0 + when(c, xa);
    let g2 = g1 + when(ct, xb);
    let g3 = g2 + when(gt, xc);
    let g4 = g3 + when(m, xd);
    let g5 = g4 + when(n, xe);
    assert(g5 == shown_groups(t, l, r));
    let j0 = join_groups(g0);
    lemma_join_stage(g0, c, xa);
    let j1 = join_groups(g1);
    lemma_join_stage(g1, ct, xb);
    let j2 = join_groups(g2);
    lemma_join_stage(g2, gt, xc);
    let j3 = join_groups(g3);
    lemma_join_stage(g3, m, xd);
    let j4 = join_groups(g4);
    lemma_join_stage(g4, n, xe);
    let j5 = join_groups(g5);

    let p_ct = 3 * count(c);
    let p_gt = p_ct + 3 * count(ct);
    let p_m = p_gt + 3 * count(gt);
    let p_n = p_m + 5 * count(m);
    let end = p_n + 5 * count(n);
    assert(j1.len() == (if p_ct == 0 { 0 } else { p_ct - 1 }));
    assert(j2.len() == (if p_gt == 0 { 0 } else { p_gt - 1 }));
    assert(j3.len() == (if p_m == 0 { 0 } else { p_m - 1 }));
    assert(j4.len() == (if p_n == 0 { 0 } else { p_n - 1 }));
    assert(j5.len() == (if end == 0 { 0 } else { end - 1 }));

    if end == 0 {
        assert(g5.len() == 0);
    } else {
        assert(g5.len() > 0);
        assert(row_spec(t, l, r) == j5);
    }
    if c {
        lemma_in_prefix(j1, j2, 0, 2, xa);
        lemma_in_prefix(j2, j3, 0, 2, xa);
        lemma_in_prefix(j3, j4, 0, 2, xa);
        lemma_in_prefix(j4, j5, 0, 2, xa);
    }
    if ct {
        lemma_in_prefix(j2, j3, p_ct, p_ct + 2, xb);
        lemma_in_prefix(j3, j4, p_ct, p_ct + 2, xb);
        lemma_in_prefix(j4, j5, p_ct, p_ct + 2, xb);
        if p_ct > 0 {
            lemma_in_prefix(j2, j3, p_ct - 1, p_ct, seq![separator()]);
            lemma_in_prefix(j3, j4, p_ct - 1, p_ct, seq![separator()]);
            lemma_in_prefix(j4, j5, p_ct - 1, p_ct, seq![separator()]);
        }
    }
    if gt {
        lemma_in_prefix(j3, j4, p_gt, p_gt + 2, xc);
        lemma_in_prefix(j4, j5, p_gt, p_gt + 2, xc);
        if p_gt > 0 {
            lemma_in_prefix(j3, j4, p_gt - 1, p_gt, seq![separator()]);
            lemma_in_prefix(j4, j5, p_gt - 1, p_gt, seq![separator()]);
        }
    }
    if m {
        lemma_in_prefix(j4, j5, p_m, p_m + 4, xd);
        if p_m > 0 {
            lemma_in_prefix(j4, j5, p_m - 1, p_m, seq![separator()]);
        }
    }
}

fn piece(text: String, tint: Tint) -> (p: Piece)
    ensures
        p@ == (text@, tint),
{
    Piece { text, tint }
}

fn text_piece(text: &str, tint: Tint) -> (p: Piece)
    ensures
        p@ == (text@, tint),
{
    Piece { text: String::from_str(text), tint }
}

/// Appends a group to the row, after a separator unless the row is empty.
fn append_group(
    row: &mut Vec<Piece>,
    group: Vec<Piece>,
    Ghost(done): Ghost<Seq<Seq<(Seq<char>, Tint)>>>,
)
    requires
        pieces_view(old(row)@) == join_groups(done),
        old(row)@.len() == 0 <==> done.len() == 0,
        group@.len() > 0,
    ensures
        pieces_view(final(row)@) == join_groups(done.push(pieces_view(group@))),
        final(row)@.len() > 0,
{
    let ghost x = pieces_view(group@);
    let ghost old_group = group@;
    let ghost g2 = done.push(x);
    assert(g2.drop_last() =~= done);
    assert(g2.last() == x);
    if row.len() > 0 {
        row.push(text_piece(" | ", Tint::Theme));
    }
    let ghost before = row@;
    let mut group = group;
    row.append(&mut group);
    assert(row@ == before + old_group);
    proof {
        if done.len() == 0 {
            assert(pieces_view(row@) =~= x);
        } else {
            assert(pieces_view(row@) =~= join_groups(done) + seq![separator()] + x);
        }
    }
}

fn label_piece(l: &LabelConfig) -> (p: Piece)
    ensures
        p@ == (l.name@, label_tint(*l)),
{
    piece(l.name.clone(), Tint::Rgb(l.color_hex()))
}

fn status_pieces(l: &LabelConfig, r: &StatusReading) -> (v: Vec<Piece>)
    ensures
        pieces_view(v@) == status_group(*l, *r),
        v@.len() == 2,
{
    let mut v: Vec<Piece> = Vec::new();
    v.push(label_piece(l));
    v.push(piece(r.text.clone(), Tint::Warning(r.status)));
    assert(pieces_view(v@) =~= status_group(*l, *r));
    v
}

fn memory_pieces(l: &LabelConfig, m: &MemoryReading) -> (v: Vec<Piece>)
    ensures
        pieces_view(v@) == memory_group(*l, *m),
        v@.len() == 4,
{
    let mut v: Vec<Piece> = Vec::new();
    v.push(label_piece(l));
    v.push(piece(m.used.clone(), Tint::Warning(m.status)));
    v.push(text_piece("/", Tint::Theme));
    v.push(piece(m.total.clone(), Tint::Theme));
    assert(pieces_view(v@) =~= memory_group(*l, *m));
    v
}

fn network_pieces(down: &LabelConfig, up: &LabelConfig, n: &NetworkReading) -> (v: Vec<Piece>)
    ensures
        pieces_view(v@) == network_group(*down, *up, *n),
        v@.len() == 4,
{
    let mut v: Vec<Piece> = Vec::new();
    v.push(text_piece("\u{2193}", Tint::Rgb(down.color_hex())));
    v.push(piece(n.download.clone(), Tint::Theme));
    v.push(text_piece(" \u{2191}", Tint::Rgb(up.color_hex())));
    v.push(piece(n.upload.clone(), Tint::Theme));
    assert(pieces_view(v@) =~= network_group(*down, *up, *n));
    v
}

/// Lays out the panel row: for each monitor that is switched on (and, for a
/// temperature, has a reading), in the order CPU usage, CPU temperature, GPU
/// temperature, memory, network, its label and reading; a `" | "`
/// separator between each two monitors; and a single empty text when no
/// monitor is shown.
pub fn panel_row(toggles: &MonitorToggles, labels: &Labels, readings: &Readings) -> (row: Vec<
    Piece,
>)
    ensures
        pieces_view(row@) == row_spec(*toggles, *labels, *readings),
{
    let mut row: Vec<Piece> = Vec::new();
    let ghost mut done: Seq<Seq<(Seq<char>, Tint)>> = Seq::empty();
    assert(pieces_view(row@) =~= join_groups(done));

    if toggles.cpu_usage {
        append_group(&mut row, status_pieces(&labels.cpu, &readings.cpu), Ghost(done));
        proof {
            done = done.push(status_group(labels.cpu, readings.cpu));
        }
    }
    let ghost d1 = done;
    assert(d1 =~= when(toggles.cpu_usage, status_group(labels.cpu, readings.cpu)));

    if toggles.cpu_temperature {
        match &readings.cpu_temp {
            Some(r) => {
                append_group(&mut row, status_pieces(&labels.cpu_temp, r), Ghost(done));
                proof {
                    done = done.push(status_group(labels.cpu_temp, *r));
                }
            },
            None => {},
        }
    }
    let ghost d2 = done;
    assert(d2 =~= d1 + when(
        toggles.cpu_temperature && readings.cpu_temp is Some,
        status_group(labels.cpu_temp, readings.cpu_temp->0),
    ));

    if toggles.gpu_temperature {
        match &readings.gpu_temp {
            Some(r) => {
                append_group(&mut row, status_pieces(&labels.gpu_temp, r), Ghost(done));
                proof {
                    done = done.push(status_group(labels.gpu_temp, *r));
                }
            },
            None => {},
        }
    }
    let ghost d3 = done;
    assert(d3 =~= d2 + when(
        toggles.gpu_temperature && readings.gpu_temp is Some,
        status_group(labels.gpu_temp, readings.gpu_temp->0),
    ));

    if toggles.memory {
        append_group(&mut row, memory_pieces(&labels.ram, &readings.memory), Ghost(done));
        proof {
            done = done.push(memory_group(labels.ram, readings.memory));
        }
    }
    let ghost d4 = done;
    assert(d4 =~= d3 + when(toggles.memory, memory_group(labels.ram, readings.memory)));

    if toggles.network {
        append_group(
            &mut row,
            network_pieces(&labels.network_download, &labels.network_upload, &readings.network),
            Ghost(done),
        );
        proof {
            done = done.push(
                network_group(labels.network_download, labels.network_upload, readings.network),
            );
        }
    }
    assert(done =~= d4 + when(
        toggles.network,
        network_group(labels.network_download, labels.network_upload, readings.network),
    ));
    assert(done =~= shown_groups(*toggles, *labels, *readings));

    if row.len() == 0 {
        row.push(text_piece("", Tint::Theme));
        assert(pieces_view(row@) =~= seq![(""@, Tint::Theme)]);
    }
    row
}

} // verus!
