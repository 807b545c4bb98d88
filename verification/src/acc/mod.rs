//! The account: its key and what a session knows of the server.

use std::sync::Arc;
use vstd::prelude::*;

use crate::api::{
    account_payload, account_payload_spec, order_payload, order_payload_spec, strs_view, ApiDirectory,
    ApiDirectoryView, ApiOrder,
};
use crate::error::{Error, ErrorView};
use crate::jwt::{matches_template, p256_jwk, template_x, template_y, Jwk, JwkView};
use crate::order::{NewOrder, Order, OrderView};
use crate::req::{ascii_text, first_header, is_visible, missing_header, req_expect_header, HttpResponse};
use crate::trans::{begun, Call, Step, Transport, TransportView};

pub mod akey;

pub use self::akey::AcmeKey;

verus! {

/// Hands out another pointer to the same value, with `Arc::clone`.
#[verifier::external_body]
pub(crate) fn share<T>(ptr: &Arc<T>) -> (other: Arc<T>)
    ensures
        *other == **ptr,
{
    Arc::clone(ptr)
}

/// What every order of an account shares: the public key, the key id,
/// and the server's directory.
pub struct AccountInner {
    pub(crate) jwk: Jwk,
    pub(crate) key_id: String,
    pub(crate) api_directory: ApiDirectory,
}

/// The mathematical value of an [`AccountInner`].
pub struct AccountInnerView {
    pub jwk: JwkView,
    pub key_id: Seq<char>,
    pub api_directory: ApiDirectoryView,
}

impl View for AccountInner {
    type V = AccountInnerView;

    closed spec fn view(&self) -> AccountInnerView {
        AccountInnerView {
            jwk: self.jwk@,
            key_id: self.key_id@,
            api_directory: self.api_directory@,
        }
    }
}

impl AccountInner {
    /// The public key of the account.
    pub fn jwk(&self) -> (jwk: &Jwk)
        ensures
            jwk@ == self@.jwk,
    {
        &self.jwk
    }

    /// The key id of the account.
    pub fn key_id(&self) -> (kid: &String)
        ensures
            kid@ == self@.key_id,
    {
        &self.key_id
    }

    /// The directory of the server.
    pub fn api_directory(&self) -> (directory: &ApiDirectory)
        ensures
            directory@ == self@.api_directory,
    {
        &self.api_directory
    }
}

/// A registered account.
pub struct Account {
    inner: Arc<AccountInner>,
}

impl View for Account {
    type V = AccountInnerView;

    closed spec fn view(&self) -> AccountInnerView {
        (*self.inner)@
    }
}

/// The text of a header that a response must have, or the problem that
/// stands for its absence.
pub open spec fn expected_header(res: crate::req::HttpResponseView, name: Seq<char>) -> Result<
    Seq<char>,
    ErrorView,
> {
    match first_header(res.headers, name) {
        Some(v) => if is_visible(v) {
            Ok(ascii_text(v))
        } else {
            Err(ErrorView::Protocol(missing_header(name)))
        },
        None => Err(ErrorView::Protocol(missing_header(name))),
    }
}

/// The names of an order: the primary name, then the alternative names.
pub open spec fn order_names(primary_name: Seq<char>, alt_names: Seq<&str>) -> Seq<Seq<char>> {
    seq![primary_name] + alt_names.map_values(|s: &str| s@)
}

/// Begins the registration of an account: the POST to `newAccount` that
/// says how to reach the holder and agrees to the terms of service. While
/// the key has no key id, the request carries the public key.
pub fn register_request(
    transport: &mut Transport,
    directory: &ApiDirectory,
    contact: &Vec<String>,
) -> (res: (Call, Step))
    ensures
        begun(
            old(transport)@,
            directory@.new_account,
            account_payload_spec(strs_view(contact@)),
            final(transport)@,
            res.0@,
            res.1@,
        ),
{
    let payload = account_payload(contact);
    transport.begin(directory.new_account.as_str(), payload.as_str())
}

impl Account {
    /// The account that the server has registered: `res` is its answer to
    /// the request of [`register_request`]. The `Location` header of the
    /// answer is the key id of the account, which every later request is
    /// signed under.
    pub fn from_registration(
        transport: &mut Transport,
        directory: ApiDirectory,
        res: &HttpResponse,
    ) -> (out: Result<Account, Error>)
        ensures
            out is Ok <==> expected_header(res@, "location"@) is Ok && matches_template(
                old(transport)@.pkcs8,
            ),
            out matches Ok(account) ==> {
                &&& final(transport)@ == (TransportView {
                    key_id: Some(account@.key_id),
                    ..old(transport)@
                })
                &&& account@.key_id == match old(transport)@.key_id {
                    Some(k) => k,
                    None => expected_header(res@, "location"@)->Ok_0,
                }
                &&& account@.jwk == p256_jwk(
                    template_x(old(transport)@.pkcs8),
                    template_y(old(transport)@.pkcs8),
                )
                &&& account@.api_directory == directory@
            },
            out matches Err(e) ==> final(transport)@ == old(transport)@ && e@ == (match expected_header(
                res@,
                "location"@,
            ) {
                Err(e) => e,
                Ok(_) => ErrorView::InvalidKey,
            }),
    {
        let location = match req_expect_header(res, "location") {
            Ok(location) => location,
            Err(problem) => {
                return Err(Error::Protocol(problem));
            },
        };
        let jwk = Jwk::from_key(transport.acme_key())?;
        transport.set_key_id(location);
        let key_id = match transport.acme_key().key_id() {
            Some(kid) => kid.clone(),
            None => {
                return Err(Error::InvalidKey);
            },
        };
        Ok(Account { inner: Arc::new(AccountInner { jwk, key_id, api_directory: directory }) })
    }

    /// The key id of the account.
    pub fn key_id(&self) -> (kid: &String)
        ensures
            kid@ == self@.key_id,
    {
        &self.inner.key_id
    }

    /// The directory of the server.
    pub fn api_directory(&self) -> (directory: &ApiDirectory)
        ensures
            directory@ == self@.api_directory,
    {
        &self.inner.api_directory
    }

    /// Begins an order for a certificate: the POST to `newOrder` that
    /// names the primary name, then the alternative names.
    pub fn new_order_request(
        &self,
        transport: &mut Transport,
        primary_name: &str,
        alt_names: &[&str],
    ) -> (res: (Call, Step))
        ensures
            begun(
                old(transport)@,
                self@.api_directory.new_order,
                order_payload_spec(order_names(primary_name@, alt_names@)),
                final(transport)@,
                res.0@,
                res.1@,
            ),
    {
        let mut names: Vec<String> = Vec::new();
        names.push(primary_name.to_owned());
        let mut i: usize = 0;
        assert(strs_view(names@) =~= seq![primary_name@]);
        assert(alt_names@.map_values(|s: &str| s@).take(0) =~= Seq::<Seq<char>>::empty());
        while i < alt_names.len()
            invariant
                i <= alt_names.len(),
                strs_view(names@) == seq![primary_name@] + alt_names@.map_values(|s: &str| s@).take(
                    i as int,
                ),
            decreases alt_names.len() - i,
        {
            let ghost before = names@;
            let name = alt_names[i].to_owned();
            names.push(name);
            i += 1;
            proof {
                let all = alt_names@.map_values(|s: &str| s@);
                assert(all.take(i as int) =~= all.take(i - 1).push(all[i - 1]));
                assert(strs_view(names@) =~= strs_view(before).push(name@));
                assert(strs_view(names@) =~= seq![primary_name@] + all.take(i as int));
            }
        }
        assert(alt_names@.map_values(|s: &str| s@).take(i as int) =~= alt_names@.map_values(
            |s: &str| s@,
        ));
        let payload = order_payload(&names);
        transport.begin(self.inner.api_directory.new_order.as_str(), payload.as_str())
    }

    /// The order that the server has created: `res` is its answer to the
    /// request of [`Account::new_order_request`], and `api_order` is the
    /// order that its body describes. The `Location` header of the answer
    /// is the URL of the order.
    pub fn new_order(&self, res: &HttpResponse, api_order: ApiOrder) -> (out: Result<NewOrder, Error>)
        ensures
            out is Ok <==> expected_header(res@, "location"@) is Ok,
            out matches Ok(order) ==> order@ == (OrderView {
                inner: self@,
                api_order: api_order@,
                url: expected_header(res@, "location"@)->Ok_0,
            }),
            out matches Err(e) ==> Err::<Seq<char>, ErrorView>(e@) == expected_header(
                res@,
                "location"@,
            ),
    {
        match req_expect_header(res, "location") {
            Ok(url) => Ok(NewOrder::new(Order::new(&self.inner, api_order, url))),
            Err(problem) => Err(Error::Protocol(problem)),
        }
    }
}

} // verus!
