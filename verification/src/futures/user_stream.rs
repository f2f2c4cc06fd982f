//! The stream of the user's own events on the futures market: how it is
//! started, kept alive and closed.

use vstd::prelude::*;

use crate::api::API;
use crate::api::Futures;
use crate::client::is_failure_of;
use crate::client::is_plain_plan;
use crate::client::listen_key_body;
use crate::client::Client;
use crate::client::Method;
use crate::client::Request;
use crate::client::Response;
use crate::errors::Error;
use crate::json::json_of_bytes;
use crate::json::FromJson;
use crate::spot::model::Success;
use crate::spot::model::UserDataStream;

verus! {

/// The endpoints of the user's stream.
#[derive(Clone, Debug)]
pub struct UserStream {
    pub client: Client,
    pub recv_window: u64,
}

impl UserStream {
    /// The request that starts a stream.
    pub fn start(&self) -> (r: Result<Request, Error>)
        ensures
            is_plain_plan(
                self.client,
                Method::Post,
                API::Futures(Futures::UserDataStream),
                None,
                r,
            ),
    {
        self.client.post(API::Futures(Futures::UserDataStream))
    }

    /// The listen key that a reply to `start` holds.
    pub fn started(&self, response: Response) -> (r: Result<UserDataStream, Error>)
        ensures
            r is Ok <==> (response.status == 200 && (
            json_of_bytes(response.body@) matches Some(j) && UserDataStream::accepts(j))),
            r matches Ok(stream) ==> stream.holds(json_of_bytes(response.body@)->0),
            r matches Err(e) ==> if response.status == 200 {
                e is Decode
            } else {
                is_failure_of(response, e)
            },
    {
        match self.client.handler(response) {
            Ok(document) => match UserDataStream::from_json(&document) {
                Some(stream) => Ok(stream),
                None => Err(Error::Decode),
            },
            Err(e) => Err(e),
        }
    }

    /// The request that keeps the stream of `listen_key` alive.
    pub fn keep_alive(&self, listen_key: &str) -> (r: Result<Request, Error>)
        ensures
            is_plain_plan(
                self.client,
                Method::Put,
                API::Futures(Futures::UserDataStream),
                Some(listen_key_body(listen_key@)),
                r,
            ),
    {
        self.client.put(API::Futures(Futures::UserDataStream), listen_key)
    }

    /// The request that closes the stream of `listen_key`.
    pub fn close(&self, listen_key: &str) -> (r: Result<Request, Error>)
        ensures
            is_plain_plan(
                self.client,
                Method::Delete,
                API::Futures(Futures::UserDataStream),
                Some(listen_key_body(listen_key@)),
                r,
            ),
    {
        self.client.delete(API::Futures(Futures::UserDataStream), listen_key)
    }

    /// The meaning of a reply to `keep_alive` or `close`.
    pub fn done(&self, response: Response) -> (r: Result<Success, Error>)
        ensures
            r is Ok <==> (response.status == 200 && (
            json_of_bytes(response.body@) matches Some(j) && Success::accepts(j))),
            r matches Err(e) ==> if response.status == 200 {
                e is Decode
            } else {
                is_failure_of(response, e)
            },
    {
        match self.client.handler(response) {
            Ok(document) => match Success::from_json(&document) {
                Some(success) => Ok(success),
                None => Err(Error::Decode),
            },
            Err(e) => Err(e),
        }
    }
}

} // verus!
