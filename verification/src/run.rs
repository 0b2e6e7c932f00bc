//! The `run` subcommand (emulated): finding the one binary that a build
//! produced for the caller to run.

use vstd::prelude::*;
use vstd::string::*;
use crate::error::{CargoError, CargoErrorView, ErrorKind};
use crate::format::field::same_text;
use crate::format::{ArtifactView, MessageView};
use crate::msg::{
    decode_error, decode_item, decode_text, decoded, decoded_view, item_view, items_view, Message,
};

verus! {

/// The `run` subcommand (emulated): the binary that a build produced.
#[derive(Debug, Clone, PartialEq, Eq)]
pub struct CargoRun {
    bin_path: String,
}

impl View for CargoRun {
    type V = Seq<char>;

    closed spec fn view(&self) -> Seq<char> {
        self.bin_path@
    }
}

/// Whether a list holds exactly the one item.
pub open spec fn is_just(list: Seq<Seq<char>>, item: Seq<char>) -> bool {
    list.len() == 1 && list[0] == item
}

/// Whether an artifact is a binary of the kind asked for that can be run: it
/// was not built for tests, its crate types are exactly `bin`, its target's
/// kinds are exactly `kind`, and it names a file.
pub open spec fn runnable(a: ArtifactView, kind: Seq<char>) -> bool {
    !a.profile.test && is_just(a.target.crate_types, "bin"@) && is_just(a.target.kind, kind)
        && a.filenames.len() > 0
}

/// The path of the binary that a message reports: the first file of a
/// runnable artifact. Every other message reports none.
pub open spec fn binary_of(m: MessageView, kind: Seq<char>) -> Option<Seq<char>> {
    match m {
        MessageView::CompilerArtifact(a) => if runnable(a, kind) {
            Some(a.filenames[0])
        } else {
            None
        },
        _ => None,
    }
}

/// What one item of a stream comes to.
pub enum Outcome {
    /// A message that reports no binary of the kind asked for.
    Skipped,
    /// A message that reports the binary at this path.
    Path(Seq<char>),
    /// A failure of the stream, or a line that is no message.
    Failed,
}

/// What one item of a stream comes to when binaries of `kind` are asked for.
pub open spec fn outcome(item: Result<Seq<char>, CargoErrorView>, kind: Seq<char>) -> Outcome {
    match item {
        Err(_) => Outcome::Failed,
        Ok(text) => match decode_text(text) {
            None => Outcome::Failed,
            Some(m) => match binary_of(m, kind) {
                Some(p) => Outcome::Path(p),
                None => Outcome::Skipped,
            },
        },
    }
}

/// Whether `e` is the failure that the item gives rise to: the stream's own
/// failure unchanged, or the failure to decode a line that is no message.
pub open spec fn carried(item: Result<Seq<char>, CargoErrorView>, e: CargoErrorView) -> bool {
    match item {
        Err(own) => e == own,
        Ok(text) => e == decode_error(text),
    }
}

/// The position of the first item at or after `from` that fails; the number
/// of items where none does.
pub open spec fn first_failure(
    items: Seq<Result<Seq<char>, CargoErrorView>>,
    kind: Seq<char>,
    from: int,
) -> int
    decreases items.len() - from,
{
    if from < 0 || from >= items.len() {
        items.len() as int
    } else if outcome(items[from], kind) is Failed {
        from
    } else {
        first_failure(items, kind, from + 1)
    }
}

/// The paths that the first `upto` items report, in their order.
pub open spec fn paths(items: Seq<Result<Seq<char>, CargoErrorView>>, kind: Seq<char>, upto: int) -> Seq<
    Seq<char>,
>
    decreases upto,
{
    if upto <= 0 || upto > items.len() {
        Seq::empty()
    } else {
        match outcome(items[upto - 1], kind) {
            Outcome::Path(p) => paths(items, kind, upto - 1).push(p),
            _ => paths(items, kind, upto - 1),
        }
    }
}

/// Whether all the paths are one and the same.
pub open spec fn all_same(ps: Seq<Seq<char>>) -> bool {
    forall|i: int| 0 <= i < ps.len() ==> #[trigger] ps[i] == ps[0]
}

/// A path between double quotes.
pub open spec fn quoted(p: Seq<char>) -> Seq<char> {
    "\""@ + p + "\""@
}

/// The paths, each between double quotes, with a comma and a space between
/// one and the next.
pub open spec fn joined(ps: Seq<Seq<char>>) -> Seq<char>
    decreases ps.len(),
{
    if ps.len() == 0 {
        Seq::empty()
    } else if ps.len() == 1 {
        quoted(ps[0])
    } else {
        joined(ps.drop_last()) + ", "@ + quoted(ps.last())
    }
}

/// The list of the paths as a failure shows it.
pub open spec fn list_text(ps: Seq<Seq<char>>) -> Seq<char> {
    "["@ + joined(ps) + "]"@
}

/// A failure of the kind `CommandFailed` with this context and no cause.
pub open spec fn failed_with(context: Seq<char>) -> CargoErrorView {
    CargoErrorView { kind: ErrorKind::CommandFailed, context: Some(context), cause: None }
}

/// The failure for a caller that asked for binaries and examples at once.
pub open spec fn multiple_selected() -> CargoErrorView {
    failed_with("Ambiguous which binary is intended, multiple selected"@)
}

/// The failure for a build that produced no binary of the kind asked for.
pub open spec fn no_binaries() -> CargoErrorView {
    failed_with("No binaries in crate"@)
}

/// The failure for a build that produced more than one such binary.
pub open spec fn ambiguous(ps: Seq<Seq<char>>) -> CargoErrorView {
    failed_with("Ambiguous which binary is intended: "@ + list_text(ps))
}

/// The kind of target that a caller asked for: examples where only examples
/// were selected, binaries otherwise.
pub open spec fn desired_kind(is_bin: bool, is_example: bool) -> Seq<char> {
    if is_example && !is_bin {
        "example"@
    } else {
        "bin"@
    }
}

/// What the paths that a stream reports come to when one binary is asked
/// for: none is a failure, paths that are all one and the same are that
/// path, and different paths are a failure that lists them all.
pub open spec fn chosen(ps: Seq<Seq<char>>) -> Result<Seq<char>, CargoErrorView> {
    if ps.len() == 0 {
        Err(no_binaries())
    } else if all_same(ps) {
        Ok(ps[0])
    } else {
        Err(ambiguous(ps))
    }
}

/// Whether `r` is what the items of a stream resolve to when one binary of
/// `kind` is asked for.
///
/// The first item that fails decides: its failure is the result. Where none
/// fails, the paths that the items report decide.
pub open spec fn resolved(
    items: Seq<Result<Seq<char>, CargoErrorView>>,
    kind: Seq<char>,
    r: Result<Seq<char>, CargoErrorView>,
) -> bool {
    let f = first_failure(items, kind, 0);
    if f < items.len() {
        r is Err && carried(items[f], r->Err_0)
    } else {
        r == chosen(paths(items, kind, items.len() as int))
    }
}

/// Whether `list` holds exactly the one item.
fn holds_just(list: &Vec<String>, item: &str) -> (r: bool)
    ensures
        r == is_just(list.deep_view(), item@),
{
    list.len() == 1 && same_text(list[0].as_str(), item)
}

/// The path of the binary that a message reports, if it reports one of the
/// kind asked for.
pub fn extract_bin<'a>(msg: &'a crate::format::Message, desired_kind: &str) -> (r: Option<&'a str>)
    ensures
        match binary_of(msg.deep_view(), desired_kind@) {
            Some(p) => r is Some && r->Some_0@ == p,
            None => r is None,
        },
{
    match msg {
        crate::format::Message::CompilerArtifact(art) => {
            if !art.profile.test && holds_just(&art.target.crate_types, "bin") && holds_just(
                &art.target.kind,
                desired_kind,
            ) && art.filenames.len() > 0 {
                Some(art.filenames[0].as_str())
            } else {
                None
            }
        },
        _ => None,
    }
}

/// Turns a result that may hold nothing into a result, if there is one.
pub fn transpose<T, E>(r: Result<Option<T>, E>) -> (o: Option<Result<T, E>>)
    ensures
        o == (match r {
            Ok(Some(x)) => Some(Ok::<T, E>(x)),
            Ok(None) => None,
            Err(e) => Some(Err::<T, E>(e)),
        }),
{
    match r {
        Ok(Some(x)) => Some(Ok(x)),
        Ok(None) => None,
        Err(e) => Some(Err(e)),
    }
}

/// Whether `r` is what one item comes to.
pub open spec fn item_result(
    item: Result<Seq<char>, CargoErrorView>,
    kind: Seq<char>,
    r: Option<Result<String, CargoError>>,
) -> bool {
    match outcome(item, kind) {
        Outcome::Skipped => r is None,
        Outcome::Path(p) => r is Some && r->Some_0 is Ok && r->Some_0->Ok_0@ == p,
        Outcome::Failed => r is Some && r->Some_0 is Err && carried(item, r->Some_0->Err_0@),
    }
}

/// What one item of a stream comes to: the path of the binary it reports,
/// nothing where it reports none, or the failure it gives rise to.
pub fn extract_binary(item: &Result<Message, CargoError>, kind: &str) -> (r: Option<
    Result<String, CargoError>,
>)
    ensures
        item_result(item_view(*item), kind@, r),
{
    let found = match item {
        Ok(raw) => match raw.decode() {
            Ok(msg) => match extract_bin(&msg, kind) {
                Some(p) => Ok(Some(p.to_owned())),
                None => Ok(None),
            },
            Err(e) => Err(e),
        },
        Err(e) => Err(e.duplicate()),
    };
    transpose(found)
}

/// The positions, among the first `upto` items, of those that come to
/// something: a path or a failure. In ascending order.
pub open spec fn reporting(items: Seq<Result<Seq<char>, CargoErrorView>>, kind: Seq<char>, upto: int) -> Seq<
    int,
>
    decreases upto,
{
    if upto <= 0 || upto > items.len() {
        Seq::empty()
    } else if outcome(items[upto - 1], kind) is Skipped {
        reporting(items, kind, upto - 1)
    } else {
        reporting(items, kind, upto - 1).push(upto - 1)
    }
}

/// What the items of a stream come to, in their order: for each item that
/// reports a binary of the kind asked for its path, for each item that fails
/// its failure, and nothing for the others.
pub fn extract_binary_paths(msgs: &Vec<Result<Message, CargoError>>, kind: &str) -> (out: Vec<
    Result<String, CargoError>,
>)
    ensures
        out@.len() == reporting(items_view(msgs@), kind@, msgs@.len() as int).len(),
        forall|k: int|
            0 <= k < out@.len() ==> {
                let at = #[trigger] reporting(items_view(msgs@), kind@, msgs@.len() as int)[k];
                0 <= at < msgs@.len() && item_result(items_view(msgs@)[at], kind@, Some(out@[k]))
            },
{
    let ghost items = items_view(msgs@);
    let mut out: Vec<Result<String, CargoError>> = Vec::new();
    let mut i: usize = 0;
    while i < msgs.len()
        invariant
            i <= msgs@.len(),
            items == items_view(msgs@),
            out@.len() == reporting(items, kind@, i as int).len(),
            forall|k: int|
                0 <= k < out@.len() ==> {
                    let at = #[trigger] reporting(items, kind@, i as int)[k];
                    0 <= at < i && item_result(items[at], kind@, Some(out@[k]))
                },
        decreases msgs@.len() - i,
    {
        let ghost before = reporting(items, kind@, i as int);
        let ghost held = out@;
        match extract_binary(&msgs[i], kind) {
            Some(r) => {
                out.push(r);
                proof {
                    let after = reporting(items, kind@, i as int + 1);
                    assert(after == before.push(i as int));
                    assert forall|k: int| 0 <= k < out@.len() implies {
                        let at = #[trigger] after[k];
                        0 <= at < i + 1 && item_result(items[at], kind@, Some(out@[k]))
                    } by {
                        if k < held.len() {
                            assert(after[k] == before[k]);
                            assert(out@[k] == held[k]);
                        }
                    }
                }
            },
            None => {
                proof {
                    assert(reporting(items, kind@, i as int + 1) == before);
                }
            },
        }
        i += 1;
    }
    out
}

/// Whether all the paths are one and the same.
fn all_equal(list: &Vec<String>) -> (r: bool)
    ensures
        r == all_same(list.deep_view()),
{
    let mut i: usize = 1;
    while i < list.len()
        invariant
            1 <= i,
            forall|k: int| 0 <= k < i && k < list@.len() ==> (#[trigger] list@[k])@ == list@[0]@,
        decreases list@.len() - i,
    {
        if !same_text(list[i].as_str(), list[0].as_str()) {
            proof {
                assert(list.deep_view()[i as int] != list.deep_view()[0]);
            }
            return false;
        }
        i += 1;
    }
    proof {
        assert forall|k: int| 0 <= k < list.deep_view().len() implies #[trigger] list.deep_view()[k]
            == list.deep_view()[0] by {
            assert(list@[k]@ == list@[0]@);
        }
    }
    true
}

/// The list of the paths as a failure shows it.
fn render_list(list: &Vec<String>) -> (text: String)
    ensures
        text@ == list_text(list.deep_view()),
{
    let ghost views = list.deep_view();
    let mut text = String::from_str("[");
    let mut i: usize = 0;
    while i < list.len()
        invariant
            i <= list@.len(),
            views == list.deep_view(),
            text@ == "["@ + joined(views.take(i as int)),
        decreases list@.len() - i,
    {
        let ghost before = text@;
        if i > 0 {
            text.append(", ");
        }
        text.append("\"");
        text.append(list[i].as_str());
        text.append("\"");
        proof {
            let head = views.take(i as int);
            let more = views.take(i as int + 1);
            assert(more.drop_last() =~= head);
            assert(more.last() == list@[i as int]@);
            if i == 0 {
                assert(joined(head) =~= Seq::<char>::empty());
                assert(text@ =~= "["@ + joined(more));
            } else {
                assert(text@ =~= "["@ + joined(more));
            }
        }
        i += 1;
    }
    proof {
        assert(views.take(list@.len() as int) =~= views);
    }
    text.append("]");
    text
}

/// The view of what a resolution comes to.
pub open spec fn path_view(r: Result<String, CargoError>) -> Result<Seq<char>, CargoErrorView> {
    match r {
        Ok(p) => Ok(p@),
        Err(e) => Err(e@),
    }
}

/// The one binary among the paths that a stream reported: none is a
/// failure, paths that are all one and the same are that path, and different
/// paths are a failure that lists them all.
pub fn choose_binary(bins: Vec<String>) -> (r: Result<String, CargoError>)
    ensures
        path_view(r) == chosen(bins.deep_view()),
{
    if bins.len() == 0 {
        Err(
            CargoError::new(ErrorKind::CommandFailed).set_context(
                String::from_str("No binaries in crate"),
            ),
        )
    } else if !all_equal(&bins) {
        let context = String::from_str("Ambiguous which binary is intended: ").concat(
            render_list(&bins).as_str(),
        );
        Err(CargoError::new(ErrorKind::CommandFailed).set_context(context))
    } else {
        Ok(bins[0].clone())
    }
}

/// The one binary of `kind` that the items of a stream report. The first
/// failure among the items is the result; after it no item is looked at.
pub fn extract_binary_path(msgs: Vec<Result<Message, CargoError>>, kind: &str) -> (r: Result<
    String,
    CargoError,
>)
    ensures
        resolved(items_view(msgs@), kind@, path_view(r)),
{
    let ghost items = items_view(msgs@);
    let mut bins: Vec<String> = Vec::new();
    let mut i: usize = 0;
    while i < msgs.len()
        invariant
            i <= msgs@.len(),
            items == items_view(msgs@),
            first_failure(items, kind@, 0) == first_failure(items, kind@, i as int),
            bins.deep_view() == paths(items, kind@, i as int),
        decreases msgs@.len() - i,
    {
        let ghost held = bins.deep_view();
        match extract_binary(&msgs[i], kind) {
            Some(Ok(p)) => {
                bins.push(p);
                proof {
                    assert(bins.deep_view() =~= held.push(p@));
                }
            },
            Some(Err(e)) => {
                return Err(e);
            },
            None => {},
        }
        i += 1;
    }
    proof {
        assert(first_failure(items, kind@, msgs@.len() as int) == msgs@.len());
    }
    choose_binary(bins)
}

/// The search for the one binary of a build, which takes the items of the
/// build's stream one by one as they come.
#[derive(Debug)]
pub struct RunSearch {
    kind: String,
    bins: Vec<String>,
    failure: Option<CargoError>,
}

/// What a search holds: the kind of target asked for, the paths reported so
/// far, and the first failure, after which nothing more is taken.
pub struct RunSearchView {
    pub kind: Seq<char>,
    pub paths: Seq<Seq<char>>,
    pub failure: Option<CargoErrorView>,
}

impl View for RunSearch {
    type V = RunSearchView;

    closed spec fn view(&self) -> RunSearchView {
        RunSearchView {
            kind: self.kind@,
            paths: self.bins.deep_view(),
            failure: match self.failure {
                Some(e) => Some(e@),
                None => None,
            },
        }
    }
}

/// A search that has taken nothing yet.
pub open spec fn started(kind: Seq<char>) -> RunSearchView {
    RunSearchView { kind, paths: Seq::empty(), failure: None }
}

/// The search after it has been handed one more decoded item. After a
/// failure nothing changes any more. Before it, a failure is kept, the path
/// of a binary of the kind asked for is added, and every other message
/// changes nothing.
pub open spec fn took(s: RunSearchView, d: Result<MessageView, CargoErrorView>) -> RunSearchView {
    if s.failure is Some {
        s
    } else {
        match d {
            Err(e) => RunSearchView { failure: Some(e), ..s },
            Ok(m) => match binary_of(m, s.kind) {
                Some(p) => RunSearchView { paths: s.paths.push(p), ..s },
                None => s,
            },
        }
    }
}

/// What a search comes to: its failure if it has one, and otherwise what
/// the paths it holds come to.
pub open spec fn concluded(s: RunSearchView) -> Result<Seq<char>, CargoErrorView> {
    match s.failure {
        Some(e) => Err(e),
        None => chosen(s.paths),
    }
}

/// The search after the first `upto` items of a stream.
pub open spec fn searched(items: Seq<Result<Seq<char>, CargoErrorView>>, kind: Seq<char>, upto: int) -> RunSearchView
    decreases upto,
{
    if upto <= 0 || upto > items.len() {
        started(kind)
    } else {
        took(searched(items, kind, upto - 1), decoded(items[upto - 1]))
    }
}

impl RunSearch {
    /// Starts a search. A caller that selected binaries and examples at once
    /// has not said which it wants: that fails here, before any item of the
    /// stream is asked for.
    pub fn new(is_bin: bool, is_example: bool) -> (r: Result<RunSearch, CargoError>)
        ensures
            is_bin && is_example ==> r is Err && r->Err_0@ == multiple_selected(),
            !(is_bin && is_example) ==> r is Ok && r->Ok_0@ == started(
                desired_kind(is_bin, is_example),
            ),
    {
        let kind = match (is_bin, is_example) {
            (true, true) => {
                return Err(
                    CargoError::new(ErrorKind::CommandFailed).set_context(
                        String::from_str("Ambiguous which binary is intended, multiple selected"),
                    ),
                );
            },
            (false, true) => "example",
            _ => "bin",
        };
        let search = RunSearch { kind: kind.to_owned(), bins: Vec::new(), failure: None };
        proof {
            assert(search@.paths =~= Seq::<Seq<char>>::empty());
        }
        Ok(search)
    }

    /// Whether the search takes more items: it does until the first failure.
    pub fn wants_more(&self) -> (more: bool)
        ensures
            more == (self@.failure is None),
    {
        self.failure.is_none()
    }

    /// Hands the search one more decoded item.
    pub fn take(&mut self, item: Result<crate::format::Message, CargoError>)
        ensures
            final(self)@ == took(old(self)@, decoded_view(item)),
    {
        if self.failure.is_some() {
            return ;
        }
        match item {
            Err(e) => {
                self.failure = Some(e);
            },
            Ok(msg) => {
                let ghost held = self.bins.deep_view();
                match extract_bin(&msg, self.kind.as_str()) {
                    Some(p) => {
                        let path = p.to_owned();
                        self.bins.push(path);
                        proof {
                            assert(self.bins.deep_view() =~= held.push(path@));
                        }
                    },
                    None => {},
                }
            },
        }
    }

    /// Ends the search: its first failure if it has one, and otherwise the
    /// one binary among the paths it holds.
    pub fn finish(self) -> (r: Result<CargoRun, CargoError>)
        ensures
            (match r {
                Ok(run) => Ok::<Seq<char>, CargoErrorView>(run@),
                Err(e) => Err::<Seq<char>, CargoErrorView>(e@),
            }) == concluded(self@),
    {
        match self.failure {
            Some(e) => Err(e),
            None => {
                let bin_path = choose_binary(self.bins)?;
                Ok(CargoRun { bin_path })
            },
        }
    }
}

impl CargoRun {
    /// The binary that a build produced, out of the items of its stream.
    ///
    /// A caller that selected binaries and examples at once has not said
    /// which it wants: that fails, whatever the items are, and none of them
    /// is looked at. Otherwise the items resolve to the one binary of the
    /// kind selected.
    pub fn from_message(msgs: Vec<Result<Message, CargoError>>, is_bin: bool, is_example: bool) -> (r:
        Result<CargoRun, CargoError>)
        ensures
            is_bin && is_example ==> r is Err && r->Err_0@ == multiple_selected(),
            !(is_bin && is_example) ==> resolved(
                items_view(msgs@),
                desired_kind(is_bin, is_example),
                match r {
                    Ok(run) => Ok(run@),
                    Err(e) => Err(e@),
                },
            ),
    {
        let kind = match (is_bin, is_example) {
            (true, true) => {
                return Err(
                    CargoError::new(ErrorKind::CommandFailed).set_context(
                        String::from_str("Ambiguous which binary is intended, multiple selected"),
                    ),
                );
            },
            (false, true) => "example",
            _ => "bin",
        };
        let bin_path = extract_binary_path(msgs, kind)?;
        Ok(CargoRun { bin_path })
    }

    /// Path to the specified binary.
    pub fn path(&self) -> (path: &str)
        ensures
            path@ == self@,
    {
        self.bin_path.as_str()
    }
}

/// Whether `needle` stands somewhere in `hay`, character for character.
pub open spec fn occurs(needle: Seq<char>, hay: Seq<char>) -> bool {
    exists|at: int|
        0 <= at && at + needle.len() <= hay.len() && #[trigger] hay.subrange(
            at,
            at + needle.len(),
        ) == needle
}

/// Whether no item of the stream fails.
pub open spec fn unfailing(items: Seq<Result<Seq<char>, CargoErrorView>>, kind: Seq<char>) -> bool {
    forall|j: int| 0 <= j < items.len() ==> !(#[trigger] outcome(items[j], kind) is Failed)
}

/// What stands in a text still stands in it when more text is put before
/// and after.
pub proof fn lemma_occurs_within(needle: Seq<char>, before: Seq<char>, hay: Seq<char>, after: Seq<char>)
    requires
        occurs(needle, hay),
    ensures
        occurs(needle, before + hay + after),
{
    let at = choose|at: int|
        0 <= at && at + needle.len() <= hay.len() && #[trigger] hay.subrange(at, at + needle.len())
            == needle;
    let whole = before + hay + after;
    let there = before.len() + at;
    assert(whole.subrange(there, there + needle.len()) =~= hay.subrange(at, at + needle.len()));
}

/// A text stands in itself.
pub proof fn lemma_occurs_in_itself(needle: Seq<char>)
    ensures
        occurs(needle, needle),
{
    assert(needle.subrange(0int, 0int + needle.len()) =~= needle);
}

/// Every path stands in the joined paths.
pub proof fn lemma_joined_lists_each(ps: Seq<Seq<char>>, k: int)
    requires
        0 <= k < ps.len(),
    ensures
        occurs(ps[k], joined(ps)),
    decreases ps.len(),
{
    let empty = Seq::<char>::empty();
    if k == ps.len() - 1 {
        lemma_occurs_in_itself(ps[k]);
        lemma_occurs_within(ps[k], "\""@, ps[k], "\""@);
        if ps.len() == 1 {
        } else {
            lemma_occurs_within(ps[k], joined(ps.drop_last()) + ", "@, quoted(ps[k]), empty);
            assert(joined(ps.drop_last()) + ", "@ + quoted(ps[k]) + empty =~= joined(ps));
        }
    } else {
        lemma_joined_lists_each(ps.drop_last(), k);
        lemma_occurs_within(ps[k], empty, joined(ps.drop_last()), ", "@ + quoted(ps.last()));
        assert(empty + joined(ps.drop_last()) + (", "@ + quoted(ps.last())) =~= joined(ps));
    }
}

/// Every path stands in the context of the failure that lists the paths.
pub proof fn lemma_ambiguous_lists_each(ps: Seq<Seq<char>>, k: int)
    requires
        0 <= k < ps.len(),
    ensures
        occurs(ps[k], ambiguous(ps).context->Some_0),
{
    lemma_joined_lists_each(ps, k);
    lemma_occurs_within(ps[k], "["@, joined(ps), "]"@);
    lemma_occurs_within(
        ps[k],
        "Ambiguous which binary is intended: "@,
        list_text(ps),
        Seq::<char>::empty(),
    );
    assert("Ambiguous which binary is intended: "@ + list_text(ps) + Seq::<char>::empty()
        =~= ambiguous(ps).context->Some_0);
}

/// Where no item from `from` on fails, there is no first failure.
pub proof fn lemma_no_failure(items: Seq<Result<Seq<char>, CargoErrorView>>, kind: Seq<char>, from: int)
    requires
        0 <= from,
        unfailing(items, kind),
    ensures
        first_failure(items, kind, from) == items.len(),
    decreases items.len() - from,
{
    if from < items.len() {
        assert(!(outcome(items[from], kind) is Failed));
        lemma_no_failure(items, kind, from + 1);
    }
}

/// Whether one of the first `upto` items reports the binary at `p`.
pub open spec fn reported(
    items: Seq<Result<Seq<char>, CargoErrorView>>,
    kind: Seq<char>,
    upto: int,
    p: Seq<char>,
) -> bool {
    exists|j: int| 0 <= j < upto && #[trigger] outcome(items[j], kind) == Outcome::Path(p)
}

/// Whether `p` is one of the paths.
pub open spec fn listed(ps: Seq<Seq<char>>, p: Seq<char>) -> bool {
    exists|k: int| 0 <= k < ps.len() && #[trigger] ps[k] == p
}

/// The paths reported are those of the items that report one: each path
/// comes from an item before `upto`, and each such item's path is among
/// them.
pub proof fn lemma_paths_are_reported(
    items: Seq<Result<Seq<char>, CargoErrorView>>,
    kind: Seq<char>,
    upto: int,
)
    requires
        0 <= upto <= items.len(),
    ensures
        forall|k: int|
            0 <= k < paths(items, kind, upto).len() ==> reported(
                items,
                kind,
                upto,
                #[trigger] paths(items, kind, upto)[k],
            ),
        forall|j: int|
            0 <= j < upto && #[trigger] outcome(items[j], kind) is Path ==> listed(
                paths(items, kind, upto),
                outcome(items[j], kind)->Path_0,
            ),
    decreases upto,
{
    if upto > 0 {
        lemma_paths_are_reported(items, kind, upto - 1);
        let rest = paths(items, kind, upto - 1);
        let all = paths(items, kind, upto);
        assert forall|k: int| 0 <= k < all.len() implies reported(
            items,
            kind,
            upto,
            #[trigger] all[k],
        ) by {
            if k < rest.len() {
                assert(all[k] == rest[k]);
                assert(reported(items, kind, upto - 1, rest[k]));
                let j = choose|j: int|
                    0 <= j < upto - 1 && #[trigger] outcome(items[j], kind) == Outcome::Path(rest[k]);
                assert(outcome(items[j], kind) == Outcome::Path(all[k]));
            } else {
                assert(outcome(items[upto - 1], kind) == Outcome::Path(all[k]));
            }
        }
        assert forall|j: int|
            0 <= j < upto && #[trigger] outcome(items[j], kind) is Path implies listed(
            all,
            outcome(items[j], kind)->Path_0,
        ) by {
            if j < upto - 1 {
                assert(listed(rest, outcome(items[j], kind)->Path_0));
                let k = choose|k: int|
                    0 <= k < rest.len() && #[trigger] rest[k] == outcome(items[j], kind)->Path_0;
                assert(all[k] == rest[k]);
            } else {
                assert(all[all.len() - 1] == outcome(items[j], kind)->Path_0);
            }
        }
    }
}

/// A stream without failure in which exactly one item reports a binary of
/// the kind asked for resolves to that binary's path: the first file of the
/// one runnable artifact.
pub proof fn lemma_one_binary_is_found(
    items: Seq<Result<Seq<char>, CargoErrorView>>,
    kind: Seq<char>,
    at: int,
    r: Result<Seq<char>, CargoErrorView>,
)
    requires
        unfailing(items, kind),
        0 <= at < items.len(),
        outcome(items[at], kind) is Path,
        forall|j: int|
            0 <= j < items.len() && j != at ==> !(#[trigger] outcome(items[j], kind) is Path),
        resolved(items, kind, r),
    ensures
        r == Ok::<Seq<char>, CargoErrorView>(outcome(items[at], kind)->Path_0),
{
    let ps = paths(items, kind, items.len() as int);
    let p = outcome(items[at], kind)->Path_0;
    lemma_no_failure(items, kind, 0);
    lemma_paths_are_reported(items, kind, items.len() as int);
    assert forall|k: int| 0 <= k < ps.len() implies #[trigger] ps[k] == p by {
        assert(reported(items, kind, items.len() as int, ps[k]));
        let j = choose|j: int|
            0 <= j < items.len() && #[trigger] outcome(items[j], kind) == Outcome::Path(ps[k]);
        assert(j == at);
    }
    assert(listed(ps, p));
    let k = choose|k: int| 0 <= k < ps.len() && #[trigger] ps[k] == p;
    assert(ps[0] == p);
}

/// A stream without failure in which no item reports a binary of the kind
/// asked for resolves to the failure `CommandFailed`, whose context holds
/// the words "No binaries".
pub proof fn lemma_no_binary_fails(
    items: Seq<Result<Seq<char>, CargoErrorView>>,
    kind: Seq<char>,
    r: Result<Seq<char>, CargoErrorView>,
)
    requires
        forall|j: int| 0 <= j < items.len() ==> #[trigger] outcome(items[j], kind) is Skipped,
        resolved(items, kind, r),
    ensures
        r == Err::<Seq<char>, CargoErrorView>(no_binaries()),
        r->Err_0.kind == ErrorKind::CommandFailed,
        occurs("No binaries"@, r->Err_0.context->Some_0),
{
    let ps = paths(items, kind, items.len() as int);
    assert(unfailing(items, kind)) by {
        assert forall|j: int| 0 <= j < items.len() implies !(#[trigger] outcome(items[j], kind)
            is Failed) by {
            assert(outcome(items[j], kind) is Skipped);
        }
    }
    lemma_no_failure(items, kind, 0);
    lemma_paths_are_reported(items, kind, items.len() as int);
    if ps.len() > 0 {
        assert(reported(items, kind, items.len() as int, ps[0]));
        let j = choose|j: int|
            0 <= j < items.len() && #[trigger] outcome(items[j], kind) == Outcome::Path(ps[0]);
        assert(outcome(items[j], kind) is Skipped);
    }
    reveal_strlit("No binaries in crate");
    reveal_strlit("No binaries");
    let whole = "No binaries in crate"@;
    assert(whole.subrange(0int, 0int + "No binaries"@.len()) =~= "No binaries"@);
}

/// A stream without failure in which two items report different binaries of
/// the kind asked for resolves to the failure `CommandFailed`, whose context
/// opens with the word "Ambiguous" and holds the path of every binary that
/// an item reports.
pub proof fn lemma_two_binaries_are_ambiguous(
    items: Seq<Result<Seq<char>, CargoErrorView>>,
    kind: Seq<char>,
    one: int,
    other: int,
    r: Result<Seq<char>, CargoErrorView>,
)
    requires
        unfailing(items, kind),
        0 <= one < items.len(),
        0 <= other < items.len(),
        outcome(items[one], kind) is Path,
        outcome(items[other], kind) is Path,
        outcome(items[one], kind)->Path_0 != outcome(items[other], kind)->Path_0,
        resolved(items, kind, r),
    ensures
        r is Err,
        r->Err_0.kind == ErrorKind::CommandFailed,
        r->Err_0.context is Some,
        r->Err_0.context->Some_0.len() >= "Ambiguous"@.len(),
        r->Err_0.context->Some_0.subrange(0, "Ambiguous"@.len() as int) == "Ambiguous"@,
        forall|j: int|
            0 <= j < items.len() && #[trigger] outcome(items[j], kind) is Path ==> occurs(
                outcome(items[j], kind)->Path_0,
                r->Err_0.context->Some_0,
            ),
{
    let ps = paths(items, kind, items.len() as int);
    lemma_no_failure(items, kind, 0);
    lemma_paths_are_reported(items, kind, items.len() as int);
    assert(listed(ps, outcome(items[one], kind)->Path_0));
    assert(listed(ps, outcome(items[other], kind)->Path_0));
    let a = choose|k: int|
        0 <= k < ps.len() && #[trigger] ps[k] == outcome(items[one], kind)->Path_0;
    let b = choose|k: int|
        0 <= k < ps.len() && #[trigger] ps[k] == outcome(items[other], kind)->Path_0;
    assert(!all_same(ps)) by {
        if all_same(ps) {
            assert(ps[a] == ps[0]);
            assert(ps[b] == ps[0]);
        }
    }
    assert(r == Err::<Seq<char>, CargoErrorView>(ambiguous(ps)));
    let context = ambiguous(ps).context->Some_0;
    reveal_strlit("Ambiguous which binary is intended: ");
    reveal_strlit("Ambiguous");
    assert(context.subrange(0, "Ambiguous"@.len() as int) =~= "Ambiguous"@);
    assert forall|j: int|
        0 <= j < items.len() && #[trigger] outcome(items[j], kind) is Path implies occurs(
        outcome(items[j], kind)->Path_0,
        context,
    ) by {
        assert(listed(ps, outcome(items[j], kind)->Path_0));
        let k = choose|k: int|
            0 <= k < ps.len() && #[trigger] ps[k] == outcome(items[j], kind)->Path_0;
        lemma_ambiguous_lists_each(ps, k);
    }
}

/// Where no item from `from` up to `to` fails, the first failure from
/// `from` on is the first failure from `to` on.
pub proof fn lemma_skip_unfailing(
    items: Seq<Result<Seq<char>, CargoErrorView>>,
    kind: Seq<char>,
    from: int,
    to: int,
)
    requires
        0 <= from <= to <= items.len(),
        forall|j: int| from <= j < to ==> !(#[trigger] outcome(items[j], kind) is Failed),
    ensures
        first_failure(items, kind, from) == first_failure(items, kind, to),
    decreases to - from,
{
    if from < to {
        assert(!(outcome(items[from], kind) is Failed));
        lemma_skip_unfailing(items, kind, from + 1, to);
    }
}

/// What a search holds after the first `upto` items: up to the first
/// failure the paths of those items, and from it on that failure.
pub proof fn lemma_search_follows(
    items: Seq<Result<Seq<char>, CargoErrorView>>,
    kind: Seq<char>,
    upto: int,
)
    requires
        0 <= upto <= items.len(),
    ensures
        searched(items, kind, upto).kind == kind,
        searched(items, kind, upto).failure is None ==> (forall|j: int|
            0 <= j < upto ==> !(#[trigger] outcome(items[j], kind) is Failed)) && searched(
            items,
            kind,
            upto,
        ).paths == paths(items, kind, upto),
        searched(items, kind, upto).failure is Some ==> first_failure(items, kind, 0) < upto
            && carried(
            items[first_failure(items, kind, 0)],
            searched(items, kind, upto).failure->Some_0,
        ),
    decreases upto,
{
    if upto > 0 {
        lemma_search_follows(items, kind, upto - 1);
        let before = searched(items, kind, upto - 1);
        if before.failure is None {
            lemma_skip_unfailing(items, kind, 0, upto - 1);
        }
    }
}

/// A search that has been handed every item of a stream comes to what the
/// stream resolves to.
pub proof fn lemma_search_resolves(items: Seq<Result<Seq<char>, CargoErrorView>>, kind: Seq<char>)
    ensures
        resolved(items, kind, concluded(searched(items, kind, items.len() as int))),
{
    lemma_search_follows(items, kind, items.len() as int);
    if searched(items, kind, items.len() as int).failure is None {
        lemma_skip_unfailing(items, kind, 0, items.len() as int);
    }
}

} // verus!
