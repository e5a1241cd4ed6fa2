use vstd::prelude::*;

verus! {

/// Why content could not be read from a response.
#[derive(Debug)]
pub enum ContentError {
    /// A field is missing or of the wrong kind, or markup could not be loaded.
    Message(String),
    /// A date did not parse.
    Date(chrono::ParseError),
    /// An integer did not parse.
    Integer(std::num::ParseIntError),
    /// A percent-encoded id did not decode to UTF-8.
    Utf8(std::string::FromUtf8Error),
}

/// What a `ContentError` says, with the text of a message.
pub ghost enum ContentErrorView {
    Message(Seq<char>),
    Date,
    Integer,
    Utf8,
}

impl View for ContentError {
    type V = ContentErrorView;

    open spec fn view(&self) -> ContentErrorView {
        match self {
            ContentError::Message(m) => ContentErrorView::Message(m@),
            ContentError::Date(_) => ContentErrorView::Date,
            ContentError::Integer(_) => ContentErrorView::Integer,
            ContentError::Utf8(_) => ContentErrorView::Utf8,
        }
    }
}

/// The error that carries `text`.
pub open spec fn msg(text: Seq<char>) -> ContentErrorView {
    ContentErrorView::Message(text)
}

/// An error with the given message.
pub fn message(text: &str) -> (r: ContentError)
    ensures
        r@ == msg(text@),
{
    ContentError::Message(text.to_string())
}

/// The view of a result.
pub open spec fn result_view<T: View>(r: Result<T, ContentError>) -> Result<T::V, ContentErrorView> {
    match r {
        Ok(v) => Ok(v@),
        Err(e) => Err(e@),
    }
}

/// The views of a sequence.
pub open spec fn views<T: View>(s: Seq<T>) -> Seq<T::V> {
    s.map_values(|x: T| x@)
}

/// The view of a result holding a vector.
pub open spec fn vec_result_view<T: View>(r: Result<Vec<T>, ContentError>) -> Result<Seq<T::V>, ContentErrorView> {
    match r {
        Ok(v) => Ok(views(v@)),
        Err(e) => Err(e@),
    }
}

/// Reads every element in order with `f`; the first failure, if any, is the result.
pub open spec fn collect<A, B>(s: Seq<A>, f: spec_fn(A) -> Result<B, ContentErrorView>) -> Result<Seq<B>, ContentErrorView>
    decreases s.len(),
{
    if s.len() == 0 {
        Ok(seq![])
    } else {
        match collect(s.drop_last(), f) {
            Err(e) => Err(e),
            Ok(vs) => match f(s.last()) {
                Ok(v) => Ok(vs.push(v)),
                Err(e) => Err(e),
            },
        }
    }
}

/// The values present in a sequence of options, in order.
pub open spec fn present<B>(s: Seq<Option<B>>) -> Seq<B>
    decreases s.len(),
{
    if s.len() == 0 {
        seq![]
    } else {
        match s.last() {
            Some(v) => present(s.drop_last()).push(v),
            None => present(s.drop_last()),
        }
    }
}

/// One more option: a present value is appended, an absent one changes nothing.
pub proof fn lemma_present_push<B>(s: Seq<Option<B>>, o: Option<B>)
    ensures
        present(s.push(o)) == match o {
            Some(v) => present(s).push(v),
            None => present(s),
        },
{
    assert(s.push(o).drop_last() =~= s);
}

/// A failure on a prefix is the failure of the whole.
pub proof fn lemma_collect_err_prefix<A, B>(s: Seq<A>, f: spec_fn(A) -> Result<B, ContentErrorView>, k: int)
    requires
        0 <= k <= s.len(),
        collect(s.take(k), f) is Err,
    ensures
        collect(s, f) == collect(s.take(k), f),
    decreases s.len() - k,
{
    if k == s.len() {
        assert(s.take(k) =~= s);
    } else {
        assert(s.drop_last().take(k) =~= s.take(k));
        lemma_collect_err_prefix(s.drop_last(), f, k);
    }
}

/// Every element is read into one result, in order: when reading succeeds there are as many
/// results as elements, and each is what `f` reads from its element.
pub proof fn lemma_collect_ok<A, B>(s: Seq<A>, f: spec_fn(A) -> Result<B, ContentErrorView>)
    requires
        collect(s, f) is Ok,
    ensures
        collect(s, f)->Ok_0.len() == s.len(),
        forall|i: int| 0 <= i < s.len() ==> f(s[i]) == Ok::<B, ContentErrorView>(#[trigger] collect(s, f)->Ok_0[i]),
    decreases s.len(),
{
    if s.len() > 0 {
        lemma_collect_ok(s.drop_last(), f);
        assert forall|i: int| 0 <= i < s.len() implies f(s[i]) == Ok::<B, ContentErrorView>(#[trigger] collect(s, f)->Ok_0[i]) by {
            if i < s.len() - 1 {
                assert(s.drop_last()[i] == s[i]);
            }
        }
    }
}

/// Reading fails exactly when some element fails to read, and then with the failure of the
/// first such element.
pub proof fn lemma_collect_err<A, B>(s: Seq<A>, f: spec_fn(A) -> Result<B, ContentErrorView>, k: int)
    requires
        0 <= k < s.len(),
        f(s[k]) is Err,
        forall|i: int| 0 <= i < k ==> (#[trigger] f(s[i])) is Ok,
    ensures
        collect(s, f) == Err::<Seq<B>, ContentErrorView>(f(s[k])->Err_0),
    decreases s.len(),
{
    if k == s.len() - 1 {
        lemma_collect_all_ok(s.drop_last(), f);
    } else {
        assert forall|i: int| 0 <= i < k implies (#[trigger] f(s.drop_last()[i])) is Ok by {
            assert(s.drop_last()[i] == s[i]);
        }
        assert(s.drop_last()[k] == s[k]);
        lemma_collect_err(s.drop_last(), f, k);
    }
}

/// When every element reads, reading succeeds.
pub proof fn lemma_collect_all_ok<A, B>(s: Seq<A>, f: spec_fn(A) -> Result<B, ContentErrorView>)
    requires
        forall|i: int| 0 <= i < s.len() ==> (#[trigger] f(s[i])) is Ok,
    ensures
        collect(s, f) is Ok,
    decreases s.len(),
{
    if s.len() > 0 {
        assert forall|i: int| 0 <= i < s.len() - 1 implies (#[trigger] f(s.drop_last()[i])) is Ok by {
            assert(s.drop_last()[i] == s[i]);
        }
        lemma_collect_all_ok(s.drop_last(), f);
        assert(f(s[s.len() - 1]) is Ok);
    }
}

/// One more element read.
pub proof fn lemma_collect_step<A, B>(s: Seq<A>, f: spec_fn(A) -> Result<B, ContentErrorView>, i: int)
    requires
        0 <= i < s.len(),
    ensures
        collect(s.take(i + 1), f) == match collect(s.take(i), f) {
            Err(e) => Err(e),
            Ok(vs) => match f(s[i]) {
                Ok(v) => Ok(vs.push(v)),
                Err(e) => Err(e),
            },
        },
{
    assert(s.take(i + 1).drop_last() =~= s.take(i));
    assert(s.take(i + 1).last() == s[i]);
}

} // verus!
