use vstd::prelude::*;

use crate::error::CatapultError;
use crate::error::CatapultErrorView;
use crate::error::CatapultResult;
use crate::error::lazy_failure;
use crate::http::Request;
use crate::http::RequestView;

verus! {

/// A cached field of a remote resource: either fetched (or set locally), or
/// not yet known.
#[derive(Debug)]
pub enum Lazy<T> {
    Available(T),
    NotLoaded,
}

impl<T: DeepView> DeepView for Lazy<T> {
    type V = Lazy<T::V>;

    open spec fn deep_view(&self) -> Lazy<T::V> {
        match self {
            Lazy::Available(v) => Lazy::Available(v.deep_view()),
            Lazy::NotLoaded => Lazy::NotLoaded,
        }
    }
}

/// The failure of a read of a field that holds no value.
#[derive(Debug, Clone, Copy)]
pub struct LazyError;

impl<T> Lazy<T> {
    /// Whether the field holds a value.
    pub fn available(&self) -> (r: bool)
        ensures
            r == (*self is Available),
    {
        match self {
            Lazy::Available(_) => true,
            Lazy::NotLoaded => false,
        }
    }

    /// The value if there is one; never asks for a load.
    pub fn peek(&self) -> (r: Option<&T>)
        ensures
            r == match *self {
                Lazy::Available(v) => Some(&v),
                Lazy::NotLoaded => None,
            },
    {
        match self {
            Lazy::Available(data) => Some(data),
            Lazy::NotLoaded => None,
        }
    }

    /// The value, or the error that tells that the field was never filled.
    pub fn get(&self) -> (r: Result<&T, LazyError>)
        ensures
            r == match *self {
                Lazy::Available(v) => Ok::<&T, LazyError>(&v),
                Lazy::NotLoaded => Err::<&T, LazyError>(LazyError),
            },
    {
        match self {
            Lazy::Available(data) => Ok(data),
            Lazy::NotLoaded => Err(LazyError),
        }
    }

    /// Fills the field with a value, whatever it held: a local write or the
    /// seed of a fetch. No request is made.
    pub fn set(&mut self, value: T)
        ensures
            *final(self) == Lazy::Available(value),
    {
        *self = Lazy::Available(value);
    }

    /// Empties the field, so that the next read asks for a load: for a
    /// field whose value the service is about to change.
    pub fn invalidate(&mut self)
        ensures
            *final(self) == Lazy::<T>::NotLoaded,
    {
        *self = Lazy::NotLoaded;
    }

    /// A field that is filled exactly when a value is at hand.
    pub fn load_if_available(data: Option<T>) -> (r: Lazy<T>)
        ensures
            r == match data {
                Some(v) => Lazy::Available(v),
                None => Lazy::NotLoaded,
            },
    {
        match data {
            Some(data) => Lazy::Available(data),
            None => Lazy::NotLoaded,
        }
    }
}

/// What the read of a field comes to: the value that is cached, or the one
/// request that has to be sent, and its response handed to `load`, before
/// the field can be read.
#[derive(Debug)]
pub enum Read<T> {
    Value(T),
    Load(Request),
}

/// The mathematical value of a [`Read`].
pub enum ReadView<V> {
    Value(V),
    Load(RequestView),
}

impl<T: DeepView> DeepView for Read<T> {
    type V = ReadView<T::V>;

    open spec fn deep_view(&self) -> ReadView<T::V> {
        match self {
            Read::Value(v) => ReadView::Value(v.deep_view()),
            Read::Load(request) => ReadView::Load(request.deep_view()),
        }
    }
}

/// The read of a field: a value that is there is given without any request;
/// one that is not asks for the load, or fails as the making of that
/// request fails.
pub open spec fn read_field<V>(field: Lazy<V>, load: Result<RequestView, CatapultErrorView>) -> Result<
    ReadView<V>,
    CatapultErrorView,
> {
    match field {
        Lazy::Available(v) => Ok(ReadView::Value(v)),
        Lazy::NotLoaded => match load {
            Ok(request) => Ok(ReadView::Load(request)),
            Err(e) => Err(e),
        },
    }
}

/// Whether the read of a field gives its value, and so asks for no request.
pub open spec fn reads_value<V>(field: Lazy<V>, load: Result<RequestView, CatapultErrorView>) -> bool {
    read_field(field, load) matches Ok(ReadView::Value(_))
}

/// Whether the read of a field asks for the load, or fails as the making of
/// its request fails.
pub open spec fn asks_load<V>(field: Lazy<V>, load: Result<RequestView, CatapultErrorView>) -> bool {
    read_field(field, load) == match load {
        Ok(request) => Ok::<ReadView<V>, CatapultErrorView>(ReadView::Load(request)),
        Err(e) => Err::<ReadView<V>, CatapultErrorView>(e),
    }
}

impl<T> Read<T> {
    /// The read that asks for a load, where the request could be made.
    pub fn load(request: CatapultResult<Request>) -> (r: CatapultResult<Read<T>>)
        ensures
            match request {
                Ok(request) => r == Ok::<Read<T>, CatapultError>(Read::Load(request)),
                Err(e) => r == Err::<Read<T>, CatapultError>(e),
            },
    {
        match request {
            Ok(request) => Ok(Read::Load(request)),
            Err(e) => Err(e),
        }
    }

    /// The value of a read that follows a load. A read that still asks for
    /// a load then shows that the load did not fill the field.
    pub fn value(self) -> (r: CatapultResult<T>)
        ensures
            match self {
                Read::Value(v) => r == Ok::<T, CatapultError>(v),
                Read::Load(_) => r is Err && r->Err_0.deep_view() == lazy_failure(),
            },
    {
        match self {
            Read::Value(v) => Ok(v),
            Read::Load(_) => Err(CatapultError::from(LazyError)),
        }
    }
}

} // verus!
