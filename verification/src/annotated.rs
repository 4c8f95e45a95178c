//! The envelopes around a response.

use vstd::prelude::*;

verus! {

/// The key of the payload, in both envelopes around a response and in a Python envelope.
pub const KEY_DATA: &'static str = "data";

/// The event that marks an error response.
pub const EVENT_ERROR: &'static str = "error";

/// A response with what accompanies it. `T` is the payload, `E` a structured error; neither is
/// looked into here.
#[derive(Debug)]
pub struct Annotated<T, E> {
    pub data: Option<T>,
    pub id: Option<String>,
    pub event: Option<String>,
    pub comment: Option<Vec<String>>,
    pub error: Option<E>,
}

/// One item of a response stream. `complete_final` marks the end of the stream.
#[derive(Debug)]
pub struct NetworkStreamWrapper<U> {
    pub data: Option<U>,
    pub complete_final: bool,
}

/// What an [`Annotated`] says: its texts as characters.
#[verifier::ext_equal]
pub ghost struct AnnotatedView<T, E> {
    pub data: Option<T>,
    pub id: Option<Seq<char>>,
    pub event: Option<Seq<char>>,
    pub comment: Option<Seq<Seq<char>>>,
    pub error: Option<E>,
}

/// The characters of an optional text.
pub open spec fn text_view(text: Option<String>) -> Option<Seq<char>> {
    match text {
        Some(text) => Some(text@),
        None => None,
    }
}

/// The characters of an optional list of texts.
pub open spec fn texts_view(texts: Option<Vec<String>>) -> Option<Seq<Seq<char>>> {
    match texts {
        Some(texts) => Some(texts@.map_values(|text: String| text@)),
        None => None,
    }
}

impl<T, E> View for Annotated<T, E> {
    type V = AnnotatedView<T, E>;

    open spec fn view(&self) -> AnnotatedView<T, E> {
        AnnotatedView {
            data: self.data,
            id: text_view(self.id),
            event: text_view(self.event),
            comment: texts_view(self.comment),
            error: self.error,
        }
    }
}

impl<T, E> AnnotatedView<T, E> {
    /// A payload and nothing else.
    pub open spec fn of_data(data: T) -> AnnotatedView<T, E> {
        AnnotatedView { data: Some(data), id: None, event: None, comment: None, error: None }
    }

    /// An error that is a message.
    pub open spec fn of_message(message: Seq<char>) -> AnnotatedView<T, E> {
        AnnotatedView {
            data: None,
            id: None,
            event: Some(EVENT_ERROR@),
            comment: Some(seq![message]),
            error: None,
        }
    }

    /// An error that is structured.
    pub open spec fn of_error(error: E) -> AnnotatedView<T, E> {
        AnnotatedView {
            data: None,
            id: None,
            event: Some(EVENT_ERROR@),
            comment: None,
            error: Some(error),
        }
    }

    /// Whether this is an error response: its event says so.
    pub open spec fn is_error(self) -> bool {
        self.event == Some(EVENT_ERROR@)
    }
}

impl<T, E> Annotated<T, E> {
    /// A response that carries `data` and nothing else.
    pub fn from_data(data: T) -> (res: Self)
        ensures
            res == (Annotated::<T, E> {
                data: Some(data),
                id: None,
                event: None,
                comment: None,
                error: None,
            }),
            res@ == AnnotatedView::<T, E>::of_data(data),
    {
        Annotated { data: Some(data), id: None, event: None, comment: None, error: None }
    }

    /// An error response that carries `message`.
    pub fn from_error(message: String) -> (res: Self)
        ensures
            res@ == AnnotatedView::<T, E>::of_message(message@),
    {
        let mut comment: Vec<String> = Vec::new();
        comment.push(message);
        let res = Annotated {
            data: None,
            id: None,
            event: Some(EVENT_ERROR.to_owned()),
            comment: Some(comment),
            error: None,
        };
        assert(comment@.map_values(|text: String| text@) =~= seq![message@]);
        res
    }

    /// An error response that carries `error`.
    pub fn from_err(error: E) -> (res: Self)
        ensures
            res@ == AnnotatedView::<T, E>::of_error(error),
    {
        Annotated {
            data: None,
            id: None,
            event: Some(EVENT_ERROR.to_owned()),
            comment: None,
            error: Some(error),
        }
    }

    /// Whether this is an error response.
    pub fn is_error(&self) -> (res: bool)
        ensures
            res == self@.is_error(),
    {
        match &self.event {
            Some(event) => *event == EVENT_ERROR.to_owned(),
            None => false,
        }
    }
}

/// A payload on its own is no error response, and both kinds of error are one.
pub proof fn law_error_responses<T, E>(data: T, message: Seq<char>, error: E)
    ensures
        !AnnotatedView::<T, E>::of_data(data).is_error(),
        AnnotatedView::<T, E>::of_message(message).is_error(),
        AnnotatedView::<T, E>::of_error(error).is_error(),
{
}

/// A response that is flagged as an error is one whose event is the text `error`: any other event,
/// and no event, is no error, whatever the response carries besides.
pub proof fn law_is_error_goes_by_the_event<T, E>(annotated: Annotated<T, E>, flag: bool)
    requires
        call_ensures(Annotated::<T, E>::is_error, (&annotated,), flag),
    ensures
        annotated.event is None ==> !flag,
        annotated.event matches Some(event) ==> (flag <==> event@ == "error"@),
{
}

/// Two responses with the same event are either both errors or both none, though nothing else in
/// them is the same, not even the kind of what they carry.
pub proof fn law_is_error_depends_on_nothing_else<T, E, U, D>(
    annotated: Annotated<T, E>,
    other: Annotated<U, D>,
    flag: bool,
    other_flag: bool,
)
    requires
        annotated.event == other.event,
        call_ensures(Annotated::<T, E>::is_error, (&annotated,), flag),
        call_ensures(Annotated::<U, D>::is_error, (&other,), other_flag),
    ensures
        flag == other_flag,
{
}

/// What the view of a response calls an error is a response whose event is the text `error`.
pub proof fn law_error_views_go_by_the_event<T, E>(annotated: Annotated<T, E>)
    ensures
        annotated.event is None ==> !annotated@.is_error(),
        annotated.event matches Some(event) ==> (annotated@.is_error() <==> event@ == "error"@),
{
}

/// A response made of a payload holds that payload, and no other field of it is filled.
pub proof fn law_payload_responses_hold_the_payload<T, E>(data: T, made: Annotated<T, E>)
    requires
        call_ensures(Annotated::<T, E>::from_data, (data,), made),
    ensures
        made.data == Some(data),
        made.id is None,
        made.event is None,
        made.comment is None,
        made.error is None,
{
}

/// A response made of a message has the event `error` and that message as its one comment, and no
/// other field of it is filled.
pub proof fn law_message_responses_hold_the_message<T, E>(message: String, made: Annotated<T, E>)
    requires
        call_ensures(Annotated::<T, E>::from_error, (message,), made),
    ensures
        made.event matches Some(event) && event@ == "error"@,
        made.comment matches Some(comment) && comment@.len() == 1 && comment@[0]@ == message@,
        made.data is None,
        made.id is None,
        made.error is None,
{
    lemma_message_fields(made, message@);
}

/// A response made of a structured error has the event `error` and holds that error, and no other
/// field of it is filled.
pub proof fn law_structured_responses_hold_the_error<T, E>(error: E, made: Annotated<T, E>)
    requires
        call_ensures(Annotated::<T, E>::from_err, (error,), made),
    ensures
        made.event matches Some(event) && event@ == "error"@,
        made.error == Some(error),
        made.data is None,
        made.id is None,
        made.comment is None,
{
    lemma_error_fields(made, error);
}

/// The fields of a response that says a message.
pub(crate) proof fn lemma_message_fields<T, E>(annotated: Annotated<T, E>, message: Seq<char>)
    requires
        annotated@ == AnnotatedView::<T, E>::of_message(message),
    ensures
        annotated.event matches Some(event) && event@ == "error"@,
        annotated.comment matches Some(comment) && comment@.len() == 1 && comment@[0]@ == message,
        annotated.data is None,
        annotated.id is None,
        annotated.error is None,
{
    let comment = annotated.comment->0;
    let texts = comment@.map_values(|text: String| text@);
    assert(annotated@.comment == Some(texts));
    assert(texts == seq![message]);
    assert(texts.len() == comment@.len());
    assert(texts[0] == comment@[0]@);
}

/// The fields of a response that says a structured error.
pub(crate) proof fn lemma_error_fields<T, E>(annotated: Annotated<T, E>, error: E)
    requires
        annotated@ == AnnotatedView::<T, E>::of_error(error),
    ensures
        annotated.event matches Some(event) && event@ == "error"@,
        annotated.error == Some(error),
        annotated.data is None,
        annotated.id is None,
        annotated.comment is None,
{
    assert(annotated@.data is None && annotated@.id is None && annotated@.comment is None);
}

} // verus!
