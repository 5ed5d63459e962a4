use vstd::prelude::*;
use vstd::string::StringExecFns;
use crate::cmd::Cmd;

verus! {

/// One piece of a template word: literal text, a single-value placeholder
/// (`{name}`), or a splat placeholder (`{name...}`) that expands a sequence
/// of values into independent arguments.
pub enum Piece {
    Literal(String),
    Single(String),
    Splat(String),
}

/// One whitespace-delimited word of a template: pieces that touch each
/// other with no separator in between, so their contributions glue into
/// shared arguments.
pub struct Word {
    pub pieces: Vec<Piece>,
}

/// A parsed command template: its words in order. The front end that turns
/// template text into this shape is the caller's; interpolation starts here.
pub struct Template {
    pub words: Vec<Word>,
}

/// A value a placeholder can take: one token, or an ordered sequence of
/// tokens for a splat placeholder.
pub enum ShellValue {
    Single(String),
    Multi(Vec<String>),
}

/// A named value supplied by the caller's scope.
pub struct Binding {
    pub name: String,
    pub value: ShellValue,
}

/// The mathematical form of a `Piece`.
pub enum PieceView {
    Lit(Seq<char>),
    One(Seq<char>),
    Many(Seq<char>),
}

/// The mathematical form of a `ShellValue`.
pub enum ShellValueView {
    One(Seq<char>),
    Many(Seq<Seq<char>>),
}

/// The mathematical form of a `Binding`.
pub struct BindingView {
    pub name: Seq<char>,
    pub value: ShellValueView,
}

impl View for Piece {
    type V = PieceView;

    open spec fn view(&self) -> PieceView {
        match self {
            Piece::Literal(t) => PieceView::Lit(t@),
            Piece::Single(n) => PieceView::One(n@),
            Piece::Splat(n) => PieceView::Many(n@),
        }
    }
}

impl DeepView for Piece {
    type V = PieceView;

    open spec fn deep_view(&self) -> PieceView {
        self.view()
    }
}

impl View for Word {
    type V = Seq<PieceView>;

    open spec fn view(&self) -> Seq<PieceView> {
        self.pieces.deep_view()
    }
}

impl DeepView for Word {
    type V = Seq<PieceView>;

    open spec fn deep_view(&self) -> Seq<PieceView> {
        self.view()
    }
}

impl View for Template {
    type V = Seq<Seq<PieceView>>;

    open spec fn view(&self) -> Seq<Seq<PieceView>> {
        self.words.deep_view()
    }
}

impl View for ShellValue {
    type V = ShellValueView;

    open spec fn view(&self) -> ShellValueView {
        match self {
            ShellValue::Single(v) => ShellValueView::One(v@),
            ShellValue::Multi(vs) => ShellValueView::Many(vs.deep_view()),
        }
    }
}

impl View for Binding {
    type V = BindingView;

    open spec fn view(&self) -> BindingView {
        BindingView { name: self.name@, value: self.value@ }
    }
}

impl DeepView for Binding {
    type V = BindingView;

    open spec fn deep_view(&self) -> BindingView {
        self.view()
    }
}

/// A misuse of the template builder, reported before any process is
/// spawned: a placeholder name no binding supplies, a placeholder whose
/// binding has the wrong shape, or a template that contributes no argument
/// at all (a command must name a program).
#[derive(Debug)]
pub enum InterpError {
    Unbound { name: String },
    ExpectedSingle { name: String },
    ExpectedList { name: String },
    EmptyCommand,
}

/// The mathematical form of the placeholder faults.
pub enum FaultView {
    Unbound(Seq<char>),
    ExpectedSingle(Seq<char>),
    ExpectedList(Seq<char>),
}

/// The fault an `InterpError` reports, if it reports one.
pub open spec fn fault_view(e: &InterpError) -> Option<FaultView> {
    match e {
        InterpError::Unbound { name } => Some(FaultView::Unbound(name@)),
        InterpError::ExpectedSingle { name } => Some(FaultView::ExpectedSingle(name@)),
        InterpError::ExpectedList { name } => Some(FaultView::ExpectedList(name@)),
        InterpError::EmptyCommand => None,
    }
}

/// First-match lookup of a placeholder name among the bindings.
pub open spec fn lookup(bs: Seq<BindingView>, name: Seq<char>) -> Option<ShellValueView>
    decreases bs.len(),
{
    if bs.len() == 0 {
        None
    } else if bs[0].name == name {
        Some(bs[0].value)
    } else {
        lookup(bs.drop_first(), name)
    }
}

/// The argument text accumulated so far within a word, empty when no piece
/// has contributed yet.
pub open spec fn opt_text(cur: Option<Seq<char>>) -> Seq<char> {
    match cur {
        Some(t) => t,
        None => Seq::<char>::empty(),
    }
}

/// The arguments one template word contributes, walked left to right.
///
/// `cur` is the argument under accumulation: literal text and single values
/// concatenate onto it (glue). A splat value's tokens become independent
/// arguments, except that its first token glues onto the accumulated text
/// and its last stays open to glue onto what follows; an empty splat
/// contributes nothing and surrounding glue proceeds across it.
pub open spec fn word_args(
    pieces: Seq<PieceView>,
    bs: Seq<BindingView>,
    cur: Option<Seq<char>>,
) -> Result<Seq<Seq<char>>, FaultView>
    decreases pieces.len(),
{
    if pieces.len() == 0 {
        Ok(
            match cur {
                Some(a) => seq![a],
                None => Seq::<Seq<char>>::empty(),
            },
        )
    } else {
        let rest = pieces.drop_first();
        match pieces[0] {
            PieceView::Lit(t) => word_args(rest, bs, Some(opt_text(cur) + t)),
            PieceView::One(n) => match lookup(bs, n) {
                Option::None => Err(FaultView::Unbound(n)),
                Option::Some(ShellValueView::One(v)) => word_args(
                    rest,
                    bs,
                    Some(opt_text(cur) + v),
                ),
                Option::Some(ShellValueView::Many(_)) => Err(FaultView::ExpectedSingle(n)),
            },
            PieceView::Many(n) => match lookup(bs, n) {
                Option::None => Err(FaultView::Unbound(n)),
                Option::Some(ShellValueView::One(_)) => Err(FaultView::ExpectedList(n)),
                Option::Some(ShellValueView::Many(vs)) => if vs.len() == 0 {
                    word_args(rest, bs, cur)
                } else if vs.len() == 1 {
                    word_args(rest, bs, Some(opt_text(cur) + vs[0]))
                } else {
                    match word_args(rest, bs, Some(vs.last())) {
                        Result::Ok(tail) => Ok(
                            seq![opt_text(cur) + vs[0]] + vs.subrange(1, vs.len() - 1) + tail,
                        ),
                        Result::Err(f) => Err(f),
                    }
                },
            },
        }
    }
}

/// The full argument list a template yields: each word's contribution in
/// order, or the leftmost fault.
pub open spec fn template_args(words: Seq<Seq<PieceView>>, bs: Seq<BindingView>) -> Result<
    Seq<Seq<char>>,
    FaultView,
>
    decreases words.len(),
{
    if words.len() == 0 {
        Ok(Seq::<Seq<char>>::empty())
    } else {
        match word_args(words[0], bs, None) {
            Result::Err(f) => Err(f),
            Result::Ok(head) => match template_args(words.drop_first(), bs) {
                Result::Err(f) => Err(f),
                Result::Ok(tail) => Ok(head + tail),
            },
        }
    }
}

/// When no binding among the first `i` matches, lookup is decided by the
/// rest.
proof fn lemma_lookup_skip(bs: Seq<BindingView>, name: Seq<char>, i: int)
    requires
        0 <= i <= bs.len(),
        forall|j: int| 0 <= j < i ==> bs[j].name != name,
    ensures
        lookup(bs, name) == lookup(bs.skip(i), name),
    decreases i,
{
    if i > 0 {
        lemma_lookup_skip(bs.drop_first(), name, i - 1);
        assert(bs.drop_first().skip(i - 1) =~= bs.skip(i));
    } else {
        assert(bs.skip(0) =~= bs);
    }
}

/// First-match lookup of a placeholder name, executable form.
fn lookup_exec<'a>(bindings: &'a Vec<Binding>, name: &String) -> (r: Option<&'a ShellValue>)
    ensures
        r is Some <==> lookup(bindings.deep_view(), name@) is Some,
        r matches Some(v) ==> lookup(bindings.deep_view(), name@) == Some(v@),
{
    let ghost bv = bindings.deep_view();
    let mut i: usize = 0;
    while i < bindings.len()
        invariant
            i <= bindings.len(),
            bv == bindings.deep_view(),
            forall|j: int| 0 <= j < i ==> bv[j].name != name@,
        decreases bindings.len() - i,
    {
        if bindings[i].name == *name {
            proof {
                lemma_lookup_skip(bv, name@, i as int);
                assert(bv.skip(i as int)[0] == bv[i as int]);
            }
            return Some(&bindings[i].value);
        }
        i = i + 1;
    }
    proof {
        lemma_lookup_skip(bv, name@, bindings@.len() as int);
    }
    None
}

/// The accumulated argument extended by `t`.
fn concat_cur(cur: Option<String>, t: &str) -> (r: String)
    ensures
        r@ == opt_text(cur_view(cur)) + t@,
{
    match cur {
        Some(a) => a.concat(t),
        None => {
            let r = String::from_str(t);
            proof {
                assert(Seq::<char>::empty() + t@ =~= t@);
            }
            r
        },
    }
}

/// The mathematical form of the accumulator.
pub open spec fn cur_view(cur: Option<String>) -> Option<Seq<char>> {
    match cur {
        Some(s) => Some(s@),
        None => None,
    }
}

/// The arguments contributed by the pieces of `word` from position `i` on,
/// with `cur` accumulated so far.
fn interp_word_from(
    word: &Word,
    i: usize,
    bindings: &Vec<Binding>,
    cur: Option<String>,
) -> (r: Result<Vec<String>, InterpError>)
    requires
        i <= word.pieces@.len(),
    ensures
        word_args(word@.skip(i as int), bindings.deep_view(), cur_view(cur)) matches Ok(args)
            ==> (r matches Ok(v) && v.deep_view() == args),
        word_args(word@.skip(i as int), bindings.deep_view(), cur_view(cur)) matches Err(f)
            ==> (r matches Err(e) && fault_view(&e) == Some(f)),
    decreases word.pieces@.len() - i,
{
    let ghost pieces = word@.skip(i as int);
    let ghost bv = bindings.deep_view();
    if i == word.pieces.len() {
        let mut out: Vec<String> = Vec::new();
        match cur {
            Some(a) => {
                out.push(a);
                proof {
                    assert(out.deep_view() =~= seq![out@[0]@]);
                }
            },
            None => {
                proof {
                    assert(out.deep_view() =~= Seq::<Seq<char>>::empty());
                }
            },
        }
        Ok(out)
    } else {
        proof {
            assert(pieces[0] == word@[i as int]);
            assert(pieces.drop_first() =~= word@.skip(i as int + 1));
        }
        match &word.pieces[i] {
            Piece::Literal(t) => {
                let next = concat_cur(cur, t.as_str());
                interp_word_from(word, i + 1, bindings, Some(next))
            },
            Piece::Single(n) => match lookup_exec(bindings, n) {
                Option::None => Err(InterpError::Unbound { name: n.clone() }),
                Option::Some(ShellValue::Single(v)) => {
                    let next = concat_cur(cur, v.as_str());
                    interp_word_from(word, i + 1, bindings, Some(next))
                },
                Option::Some(ShellValue::Multi(_)) => Err(
                    InterpError::ExpectedSingle { name: n.clone() },
                ),
            },
            Piece::Splat(n) => match lookup_exec(bindings, n) {
                Option::None => Err(InterpError::Unbound { name: n.clone() }),
                Option::Some(ShellValue::Single(_)) => Err(
                    InterpError::ExpectedList { name: n.clone() },
                ),
                Option::Some(ShellValue::Multi(vs)) => {
                    if vs.len() == 0 {
                        interp_word_from(word, i + 1, bindings, cur)
                    } else if vs.len() == 1 {
                        let next = concat_cur(cur, vs[0].as_str());
                        interp_word_from(word, i + 1, bindings, Some(next))
                    } else {
                        let first = concat_cur(cur, vs[0].as_str());
                        let last = vs[vs.len() - 1].clone();
                        match interp_word_from(word, i + 1, bindings, Some(last)) {
                            Result::Err(e) => Err(e),
                            Result::Ok(tail) => {
                                let mut out: Vec<String> = Vec::new();
                                out.push(first);
                                let mut j: usize = 1;
                                while j < vs.len() - 1
                                    invariant
                                        1 <= j <= vs@.len() - 1,
                                        vs@.len() >= 2,
                                        out.deep_view() =~= seq![
                                            opt_text(cur_view(cur)) + vs.deep_view()[0],
                                        ] + vs.deep_view().subrange(1, j as int),
                                    decreases vs@.len() - j,
                                {
                                    let ghost pre = out.deep_view();
                                    out.push(vs[j].clone());
                                    proof {
                                        assert(out.deep_view() =~= pre.push(
                                            vs.deep_view()[j as int],
                                        ));
                                        assert(vs.deep_view().subrange(1, j as int + 1)
                                            =~= vs.deep_view().subrange(1, j as int).push(
                                            vs.deep_view()[j as int],
                                        ));
                                        assert(out.deep_view() =~= seq![
                                            opt_text(cur_view(cur)) + vs.deep_view()[0],
                                        ] + vs.deep_view().subrange(1, j as int + 1));
                                    }
                                    j = j + 1;
                                }
                                let ghost mid = out.deep_view();
                                let mut tail = tail;
                                let ghost tail_args = tail.deep_view();
                                out.append(&mut tail);
                                proof {
                                    assert(out.deep_view() =~= mid + tail_args);
                                }
                                Ok(out)
                            },
                        }
                    }
                },
            },
        }
    }
}

/// Resolve a template against the caller's named values into a command.
///
/// Success is owed exactly when every placeholder finds a binding of the
/// right shape and the words contribute at least one argument; the command
/// then holds exactly the argument list of `template_args`, and no stdin
/// bytes. Otherwise the leftmost fault is reported — before any process
/// could be spawned — or `EmptyCommand` when the template yields no
/// argument at all.
pub fn interpolate(template: &Template, bindings: &Vec<Binding>) -> (r: Result<Cmd, InterpError>)
    ensures
        template_args(template@, bindings.deep_view()) matches Ok(args) ==> (if args.len() == 0 {
            r matches Err(e) && e matches InterpError::EmptyCommand
        } else {
            r matches Ok(c) && c.wf() && c.args_view() == args && c.stdin_view() is None
        }),
        template_args(template@, bindings.deep_view()) matches Err(f) ==> (r matches Err(e)
            && fault_view(&e) == Some(f)),
{
    let ghost bv = bindings.deep_view();
    let mut acc: Vec<String> = Vec::new();
    let mut k: usize = 0;
    proof {
        assert(template@.skip(0) =~= template@);
        assert(acc.deep_view() =~= Seq::<Seq<char>>::empty());
        match template_args(template@, bv) {
            Result::Ok(tail) => {
                assert(acc.deep_view() + tail =~= tail);
            },
            Result::Err(_) => {},
        }
    }
    while k < template.words.len()
        invariant
            k <= template.words@.len(),
            bv == bindings.deep_view(),
            template_args(template@.skip(k as int), bv) matches Ok(tail) ==> (template_args(
                template@,
                bv,
            ) matches Ok(all) && all == acc.deep_view() + tail),
            template_args(template@.skip(k as int), bv) matches Err(f) ==> template_args(
                template@,
                bv,
            ) == Result::<Seq<Seq<char>>, FaultView>::Err(f),
        decreases template.words@.len() - k,
    {
        proof {
            assert(template@.skip(k as int)[0] == template@[k as int]);
            assert(template@.skip(k as int).drop_first() =~= template@.skip(k as int + 1));
            assert(template.words[k as int]@.skip(0) =~= template.words[k as int]@);
        }
        match interp_word_from(&template.words[k], 0, bindings, None) {
            Result::Err(e) => {
                return Err(e);
            },
            Result::Ok(mut v) => {
                let ghost pre = acc.deep_view();
                let ghost head = v.deep_view();
                acc.append(&mut v);
                proof {
                    assert(acc.deep_view() =~= pre + head);
                    match template_args(template@.skip(k as int + 1), bv) {
                        Result::Ok(tail) => {
                            assert(template_args(template@.skip(k as int), bv) == Result::<
                                Seq<Seq<char>>,
                                FaultView,
                            >::Ok(head + tail));
                            assert(pre + (head + tail) =~= (pre + head) + tail);
                        },
                        Result::Err(_) => {},
                    }
                }
            },
        }
        k = k + 1;
    }
    proof {
        assert(template@.skip(template.words@.len() as int) =~= Seq::<Seq<PieceView>>::empty());
        assert(template_args(template@, bv) == Result::<Seq<Seq<char>>, FaultView>::Ok(
            acc.deep_view() + Seq::<Seq<char>>::empty(),
        ));
        assert(acc.deep_view() + Seq::<Seq<char>>::empty() =~= acc.deep_view());
    }
    if acc.len() == 0 {
        Err(InterpError::EmptyCommand)
    } else {
        Ok(Cmd::from_args(acc))
    }
}

} // verus!
