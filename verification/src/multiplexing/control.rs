//! Requests to a connection's worker, and what they come to.

use vstd::prelude::*;

verus! {

/// What the worker can be asked to do.
#[derive(Debug, Clone, Copy, PartialEq, Eq, Structural)]
pub enum YamuxRequest {
    /// Open a substream to the remote.
    OpenStream,
    /// Close the connection.
    Close,
}

/// Why a request came to nothing. `E` is the connection's own error.
#[derive(Debug, PartialEq, Eq)]
pub enum YamuxControlError<E> {
    /// The worker is gone: the request could not be sent to it.
    RequestNotSent,
    /// The worker dropped the request without a reply.
    ReplyDropped,
    /// The connection failed.
    Connection(E),
}

/// A handle for making requests of the worker. Copies of it lead to the same worker.
#[derive(Debug, Clone, Copy, PartialEq, Eq, Structural)]
pub struct Control {
    capacity: usize,
}

/// A request that is still to be sent to the worker.
#[derive(Debug)]
pub struct UnsentRequest {
    request: YamuxRequest,
}

/// A request that the worker has and that is not answered yet.
#[derive(Debug)]
pub struct SentRequest {
    request: YamuxRequest,
}

impl View for Control {
    type V = usize;

    /// How many requests may wait for the worker.
    closed spec fn view(&self) -> usize {
        self.capacity
    }
}

impl View for UnsentRequest {
    type V = YamuxRequest;

    closed spec fn view(&self) -> YamuxRequest {
        self.request
    }
}

impl View for SentRequest {
    type V = YamuxRequest;

    closed spec fn view(&self) -> YamuxRequest {
        self.request
    }
}

/// What a sent request comes to, given the worker's reply or, if it was dropped, none.
pub open spec fn outcome_of_reply<T, E>(reply: Option<Result<T, E>>) -> Result<
    T,
    YamuxControlError<E>,
> {
    match reply {
        None => Err(YamuxControlError::ReplyDropped),
        Some(Err(err)) => Err(YamuxControlError::Connection(err)),
        Some(Ok(value)) => Ok(value),
    }
}

/// What a request comes to: nothing if the worker did not accept it, else what its reply says.
pub open spec fn outcome_of_request<T, E>(accepted: bool, reply: Option<Result<T, E>>) -> Result<
    T,
    YamuxControlError<E>,
> {
    if accepted {
        outcome_of_reply(reply)
    } else {
        Err(YamuxControlError::RequestNotSent)
    }
}

impl Control {
    /// What is sent through this handle to open a substream.
    pub open spec fn request_to_open(&self) -> YamuxRequest {
        YamuxRequest::OpenStream
    }

    /// What is sent through this handle to close the connection.
    pub open spec fn request_to_close(&self) -> YamuxRequest {
        YamuxRequest::Close
    }

    /// A handle whose channel to the worker has room for `capacity` requests.
    pub fn new(capacity: usize) -> (control: Self)
        ensures
            control@ == capacity,
    {
        Control { capacity }
    }

    /// How many requests may wait for the worker.
    pub fn capacity(&self) -> (capacity: usize)
        ensures
            capacity == self@,
    {
        self.capacity
    }

    /// Open a new stream to the remote.
    pub fn open_stream(&self) -> (unsent: UnsentRequest)
        ensures
            unsent@ == YamuxRequest::OpenStream,
            unsent@ == self.request_to_open(),
    {
        UnsentRequest { request: YamuxRequest::OpenStream }
    }

    /// Close the connection.
    pub fn close(&self) -> (unsent: UnsentRequest)
        ensures
            unsent@ == YamuxRequest::Close,
            unsent@ == self.request_to_close(),
    {
        UnsentRequest { request: YamuxRequest::Close }
    }
}

impl UnsentRequest {
    /// What is to be sent to the worker.
    pub fn request(&self) -> (request: YamuxRequest)
        ensures
            request == self@,
    {
        self.request
    }

    /// The request was put into the channel to the worker, or could not be
    /// because the worker is gone.
    pub fn sent<E>(self, accepted: bool) -> (outcome: Result<SentRequest, YamuxControlError<E>>)
        ensures
            accepted ==> (outcome matches Ok(sent) && sent@ == self@),
            !accepted ==> outcome == Err::<SentRequest, _>(YamuxControlError::<E>::RequestNotSent),
    {
        if accepted {
            Ok(SentRequest { request: self.request })
        } else {
            Err(YamuxControlError::RequestNotSent)
        }
    }
}

impl SentRequest {
    /// The worker replied, or (`None`) dropped the request.
    pub fn replied<T, E>(self, reply: Option<Result<T, E>>) -> (outcome: Result<
        T,
        YamuxControlError<E>,
    >)
        ensures
            reply is None <==> outcome == Err::<T, _>(YamuxControlError::<E>::ReplyDropped),
            reply matches Some(Err(err)) ==> outcome == Err::<T, _>(
                YamuxControlError::Connection(err),
            ),
            reply matches Some(Ok(value)) ==> outcome == Ok::<T, YamuxControlError<E>>(value),
            outcome == outcome_of_reply(reply),
    {
        match reply {
            None => Err(YamuxControlError::ReplyDropped),
            Some(Err(err)) => Err(YamuxControlError::Connection(err)),
            Some(Ok(value)) => Ok(value),
        }
    }
}

} // verus!
