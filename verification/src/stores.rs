//! The chain-store query: the one remote method whose result is read into
//! typed records.

use crate::decimal::{decimal, to_decimal};
use crate::error::{Failure, QueryError};
use crate::fault::{Field, ShapeFault};
use crate::json::{
    as_items, describe, is_object, json_of, member, member_of, parse, parse_outcome, Json,
};
use crate::query::{check_status, status_failure};
use crate::request::{build_request, ApiRequest, Request};
use crate::response::{
    decode_envelope, envelope_of, interpreted, message_of, parsed_view, read_message, read_text,
    text_field,
};
use crate::text::text_view;
use serde_json::Value;
use vstd::prelude::*;

verus! {

/// One store of a chain, as the service describes it. Every entry is kept as
/// the text that was sent.
#[derive(Debug, PartialEq)]
pub struct Store {
    pub store_id: String,
    pub store_name: String,
    pub school_id: String,
    pub school_name: String,
    pub store_type_code: String,
    pub store_type_name: String,
    pub parent_code: String,
    pub parent_name: String,
    pub store_code: String,
    pub street_id: String,
    pub enable: String,
    pub logo: String,
}

/// A store as a mathematical object.
pub struct StoreRecord {
    pub store_id: Seq<char>,
    pub store_name: Seq<char>,
    pub school_id: Seq<char>,
    pub school_name: Seq<char>,
    pub store_type_code: Seq<char>,
    pub store_type_name: Seq<char>,
    pub parent_code: Seq<char>,
    pub parent_name: Seq<char>,
    pub store_code: Seq<char>,
    pub street_id: Seq<char>,
    pub enable: Seq<char>,
    pub logo: Seq<char>,
}

impl View for Store {
    type V = StoreRecord;

    open spec fn view(&self) -> StoreRecord {
        StoreRecord {
            store_id: self.store_id@,
            store_name: self.store_name@,
            school_id: self.school_id@,
            school_name: self.school_name@,
            store_type_code: self.store_type_code@,
            store_type_name: self.store_type_name@,
            parent_code: self.parent_code@,
            parent_name: self.parent_name@,
            store_code: self.store_code@,
            street_id: self.street_id@,
            enable: self.enable@,
            logo: self.logo@,
        }
    }
}

/// The result of the chain-store query.
#[derive(Debug, PartialEq)]
pub struct StoreList {
    /// The service's own status of the result, as it was sent, if any was.
    pub res_status: Option<Value>,
    pub msg: String,
    pub store_list: Vec<Store>,
}

/// A chain-store result as a mathematical object.
pub struct Stores {
    pub res_status: Option<Json>,
    pub msg: Seq<char>,
    pub store_list: Seq<StoreRecord>,
}

impl View for StoreList {
    type V = Stores;

    open spec fn view(&self) -> Stores {
        Stores {
            res_status: match self.res_status {
                Some(v) => Some(json_of(v)),
                None => None,
            },
            msg: self.msg@,
            store_list: self.store_list@.map_values(|s: Store| s@),
        }
    }
}

/// Why a result content is no chain-store result.
#[derive(Clone, Copy, Debug, PartialEq, Eq)]
pub enum StoreListFault {
    /// The content as a whole is at fault.
    Content(ShapeFault),
    /// The entry at this place of the store list is at fault.
    Entry(usize, ShapeFault),
}

impl StoreListFault {
    /// The fault in words.
    pub open spec fn text(self) -> Seq<char> {
        match self {
            StoreListFault::Content(fault) => fault.text(),
            StoreListFault::Entry(index, fault) => "store "@ + decimal(index as nat) + ": "@
                + fault.text(),
        }
    }

    /// Puts the fault in words.
    pub fn describe(self) -> (r: String)
        ensures
            r@ == self.text(),
    {
        match self {
            StoreListFault::Content(fault) => fault.describe(),
            StoreListFault::Entry(index, fault) => {
                let mut r = "store ".to_owned();
                r.append(to_decimal(index as u64).as_str());
                r.append(": ");
                r.append(fault.describe().as_str());
                r
            },
        }
    }
}

/// The store that `j` denotes. `j` has to be an object in which each of the
/// twelve entries of a store is a string member; further members are
/// ignored. Of several faults the first in the order of the entries is
/// reported.
pub open spec fn store_of(j: Json) -> Result<StoreRecord, ShapeFault> {
    if !(j is Object) {
        Err(ShapeFault::NotAnObject)
    } else if text_field(j, Field::StoreId) is Err {
        Err(text_field(j, Field::StoreId)->Err_0)
    } else if text_field(j, Field::StoreName) is Err {
        Err(text_field(j, Field::StoreName)->Err_0)
    } else if text_field(j, Field::SchoolId) is Err {
        Err(text_field(j, Field::SchoolId)->Err_0)
    } else if text_field(j, Field::SchoolName) is Err {
        Err(text_field(j, Field::SchoolName)->Err_0)
    } else if text_field(j, Field::StoreTypeCode) is Err {
        Err(text_field(j, Field::StoreTypeCode)->Err_0)
    } else if text_field(j, Field::StoreTypeName) is Err {
        Err(text_field(j, Field::StoreTypeName)->Err_0)
    } else if text_field(j, Field::ParentCode) is Err {
        Err(text_field(j, Field::ParentCode)->Err_0)
    } else if text_field(j, Field::ParentName) is Err {
        Err(text_field(j, Field::ParentName)->Err_0)
    } else if text_field(j, Field::StoreCode) is Err {
        Err(text_field(j, Field::StoreCode)->Err_0)
    } else if text_field(j, Field::StreetId) is Err {
        Err(text_field(j, Field::StreetId)->Err_0)
    } else if text_field(j, Field::Enable) is Err {
        Err(text_field(j, Field::Enable)->Err_0)
    } else if text_field(j, Field::Logo) is Err {
        Err(text_field(j, Field::Logo)->Err_0)
    } else {
        Ok(
            StoreRecord {
                store_id: text_field(j, Field::StoreId)->Ok_0,
                store_name: text_field(j, Field::StoreName)->Ok_0,
                school_id: text_field(j, Field::SchoolId)->Ok_0,
                school_name: text_field(j, Field::SchoolName)->Ok_0,
                store_type_code: text_field(j, Field::StoreTypeCode)->Ok_0,
                store_type_name: text_field(j, Field::StoreTypeName)->Ok_0,
                parent_code: text_field(j, Field::ParentCode)->Ok_0,
                parent_name: text_field(j, Field::ParentName)->Ok_0,
                store_code: text_field(j, Field::StoreCode)->Ok_0,
                street_id: text_field(j, Field::StreetId)->Ok_0,
                enable: text_field(j, Field::Enable)->Ok_0,
                logo: text_field(j, Field::Logo)->Ok_0,
            },
        )
    }
}

/// The stores that `items` denote, in order. Where some item denotes no
/// store, the first such item is reported with its place and its fault.
pub open spec fn stores_of(items: Seq<Json>) -> Result<Seq<StoreRecord>, StoreListFault>
    decreases items.len(),
{
    if items.len() == 0 {
        Ok(Seq::empty())
    } else {
        match stores_of(items.drop_last()) {
            Err(fault) => Err(fault),
            Ok(stores) => match store_of(items.last()) {
                Ok(store) => Ok(stores.push(store)),
                Err(fault) => Err(StoreListFault::Entry((items.len() - 1) as usize, fault)),
            },
        }
    }
}

/// Reading a list of items as stores keeps their number and their order, and
/// fails exactly on the first item that denotes no store.
pub proof fn lemma_stores_are_read_in_order(items: Seq<Json>)
    requires
        items.len() <= usize::MAX,
    ensures
        match stores_of(items) {
            Ok(stores) => {
                &&& stores.len() == items.len()
                &&& forall|i: int|
                    0 <= i < items.len() ==> store_of(#[trigger] items[i]) == Ok::<
                        StoreRecord,
                        ShapeFault,
                    >(stores[i])
            },
            Err(StoreListFault::Entry(index, fault)) => {
                &&& index < items.len()
                &&& store_of(items[index as int]) == Err::<StoreRecord, ShapeFault>(fault)
                &&& forall|i: int| 0 <= i < index ==> store_of(#[trigger] items[i]) is Ok
            },
            Err(StoreListFault::Content(_)) => false,
        },
    decreases items.len(),
{
    if items.len() > 0 {
        let front = items.drop_last();
        lemma_stores_are_read_in_order(front);
        assert(forall|i: int| 0 <= i < front.len() ==> front[i] == items[i]);
    }
}

/// The chain-store result that `content` denotes. `content` has to be an
/// object with an array member `storeList` whose items all denote stores.
/// The message is that of the content, as for every query; `resStatus` is
/// handed on if it is there.
pub open spec fn store_list_of(content: Json) -> Result<Stores, StoreListFault> {
    if !(content is Object) {
        Err(StoreListFault::Content(ShapeFault::NotAnObject))
    } else {
        match member_of(content, Field::StoreList.key()) {
            None => Err(StoreListFault::Content(ShapeFault::Missing(Field::StoreList))),
            Some(Json::Array(items)) => match stores_of(items) {
                Err(fault) => Err(fault),
                Ok(stores) => Ok(
                    Stores {
                        res_status: member_of(content, "resStatus"@),
                        msg: message_of(content),
                        store_list: stores,
                    },
                ),
            },
            Some(_) => Err(StoreListFault::Content(ShapeFault::NotArray(Field::StoreList))),
        }
    }
}

/// The view of what decoding gave.
pub open spec fn decoded_view(decoded: Result<StoreList, StoreListFault>) -> Result<
    Stores,
    StoreListFault,
> {
    match decoded {
        Ok(list) => Ok(list@),
        Err(fault) => Err(fault),
    }
}

/// Reads one store out of an item of the store list.
pub fn decode_store(v: &Value) -> (r: Result<Store, ShapeFault>)
    ensures
        match r {
            Ok(store) => store_of(json_of(*v)) == Ok::<StoreRecord, ShapeFault>(store@),
            Err(fault) => store_of(json_of(*v)) == Err::<StoreRecord, ShapeFault>(fault),
        },
{
    if !is_object(v) {
        return Err(ShapeFault::NotAnObject);
    }
    let store_id = match read_text(v, Field::StoreId) {
        Ok(s) => s,
        Err(fault) => {
            return Err(fault);
        },
    };
    let store_name = match read_text(v, Field::StoreName) {
        Ok(s) => s,
        Err(fault) => {
            return Err(fault);
        },
    };
    let school_id = match read_text(v, Field::SchoolId) {
        Ok(s) => s,
        Err(fault) => {
            return Err(fault);
        },
    };
    let school_name = match read_text(v, Field::SchoolName) {
        Ok(s) => s,
        Err(fault) => {
            return Err(fault);
        },
    };
    let store_type_code = match read_text(v, Field::StoreTypeCode) {
        Ok(s) => s,
        Err(fault) => {
            return Err(fault);
        },
    };
    let store_type_name = match read_text(v, Field::StoreTypeName) {
        Ok(s) => s,
        Err(fault) => {
            return Err(fault);
        },
    };
    let parent_code = match read_text(v, Field::ParentCode) {
        Ok(s) => s,
        Err(fault) => {
            return Err(fault);
        },
    };
    let parent_name = match read_text(v, Field::ParentName) {
        Ok(s) => s,
        Err(fault) => {
            return Err(fault);
        },
    };
    let store_code = match read_text(v, Field::StoreCode) {
        Ok(s) => s,
        Err(fault) => {
            return Err(fault);
        },
    };
    let street_id = match read_text(v, Field::StreetId) {
        Ok(s) => s,
        Err(fault) => {
            return Err(fault);
        },
    };
    let enable = match read_text(v, Field::Enable) {
        Ok(s) => s,
        Err(fault) => {
            return Err(fault);
        },
    };
    let logo = match read_text(v, Field::Logo) {
        Ok(s) => s,
        Err(fault) => {
            return Err(fault);
        },
    };
    Ok(
        Store {
            store_id,
            store_name,
            school_id,
            school_name,
            store_type_code,
            store_type_name,
            parent_code,
            parent_name,
            store_code,
            street_id,
            enable,
            logo,
        },
    )
}

/// Reads the stores out of the items of a store list.
fn decode_stores(items: &Vec<Value>) -> (r: Result<Vec<Store>, StoreListFault>)
    ensures
        match r {
            Ok(stores) => stores_of(items@.map_values(|x: Value| json_of(x))) == Ok::<
                Seq<StoreRecord>,
                StoreListFault,
            >(stores@.map_values(|s: Store| s@)),
            Err(fault) => stores_of(items@.map_values(|x: Value| json_of(x))) == Err::<
                Seq<StoreRecord>,
                StoreListFault,
            >(fault),
        },
{
    let ghost all = items@.map_values(|x: Value| json_of(x));
    let mut stores: Vec<Store> = Vec::new();
    let mut i: usize = 0;
    assert(stores@.map_values(|s: Store| s@) =~= Seq::<StoreRecord>::empty());
    while i < items.len()
        invariant
            i <= items.len(),
            all == items@.map_values(|x: Value| json_of(x)),
            stores_of(all.take(i as int)) == Ok::<Seq<StoreRecord>, StoreListFault>(
                stores@.map_values(|s: Store| s@),
            ),
        decreases items.len() - i,
    {
        let ghost before = stores@.map_values(|s: Store| s@);
        proof {
            assert(all.take(i + 1).drop_last() =~= all.take(i as int));
        }
        match decode_store(&items[i]) {
            Ok(store) => {
                stores.push(store);
                assert(stores@.map_values(|s: Store| s@) =~= before.push(store@));
            },
            Err(fault) => {
                proof {
                    lemma_fault_stays(all, i + 1);
                }
                return Err(StoreListFault::Entry(i, fault));
            },
        }
        i += 1;
    }
    assert(all.take(i as int) =~= all);
    Ok(stores)
}

/// A fault among the first `n` items is the fault of the whole list.
proof fn lemma_fault_stays(items: Seq<Json>, n: int)
    requires
        0 <= n <= items.len(),
        stores_of(items.take(n)) is Err,
    ensures
        stores_of(items) == stores_of(items.take(n)),
    decreases items.len() - n,
{
    if n < items.len() {
        assert(items.take(n + 1).drop_last() =~= items.take(n));
        lemma_fault_stays(items, n + 1);
    } else {
        assert(items.take(n) =~= items);
    }
}

/// Reads a result content as a chain-store result.
pub fn decode_store_list(content: &Value) -> (r: Result<StoreList, StoreListFault>)
    ensures
        decoded_view(r) == store_list_of(json_of(*content)),
{
    if !is_object(content) {
        return Err(StoreListFault::Content(ShapeFault::NotAnObject));
    }
    let items = match member(content, Field::StoreList.name()) {
        None => {
            return Err(StoreListFault::Content(ShapeFault::Missing(Field::StoreList)));
        },
        Some(m) => match as_items(m) {
            None => {
                return Err(StoreListFault::Content(ShapeFault::NotArray(Field::StoreList)));
            },
            Some(items) => items,
        },
    };
    let store_list = match decode_stores(items) {
        Err(fault) => {
            return Err(fault);
        },
        Ok(stores) => stores,
    };
    let res_status = match member(content, "resStatus") {
        Some(m) => Some(m.clone()),
        None => None,
    };
    let msg = read_message(content);
    Ok(StoreList { res_status, msg, store_list })
}

/// The remote method that lists the stores of a chain.
pub const QUERY_CHAIN_STORE: &'static str = "QueryChainStore";

/// Makes the request of a chain-store query: the request of an ordinary
/// query for the method `QueryChainStore`.
pub fn chain_store_request(
    school_id: i64,
    school_code: Option<String>,
    school_name: Option<String>,
    func: Option<String>,
    store_id: Option<String>,
    var_type: Option<String>,
    value_name: Option<String>,
    token: Option<String>,
    username: Option<String>,
) -> (r: ApiRequest)
    ensures
        r@ == Request::of_inputs(
            QUERY_CHAIN_STORE@,
            school_id as int,
            text_view(school_code),
            text_view(school_name),
            text_view(func),
            text_view(store_id),
            text_view(var_type),
            text_view(value_name),
            text_view(token),
            text_view(username),
        ),
{
    build_request(
        QUERY_CHAIN_STORE.to_owned(),
        school_id,
        school_code,
        school_name,
        func,
        store_id,
        var_type,
        value_name,
        token,
        username,
    )
}

/// What is made of the body of a chain-store answer that parsed to
/// `parsed`: as for every query, a parse failure where the body is no JSON
/// or no envelope; a parse failure, too, where the result content is no
/// chain-store result; the stores otherwise. Every failure carries the
/// whole body.
pub open spec fn stores_interpreted(parsed: Result<Json, Seq<char>>, raw: Seq<char>) -> Result<
    Stores,
    Failure,
> {
    match parsed {
        Err(complaint) => Err(Failure::Parse { diagnostic: complaint, raw }),
        Ok(j) => match envelope_of(j) {
            Err(fault) => Err(Failure::Parse { diagnostic: fault.text(), raw }),
            Ok(envelope) => match store_list_of(envelope.result_content) {
                Err(fault) => Err(Failure::Parse { diagnostic: fault.text(), raw }),
                Ok(stores) => Ok(stores),
            },
        },
    }
}

/// What is made of a chain-store answer with this status. The body counts
/// only where the status reports success.
pub open spec fn stores_answered(status: u16, parsed: Result<Json, Seq<char>>, raw: Seq<char>) -> Result<
    Stores,
    Failure,
> {
    match status_failure(status) {
        Some(failure) => Err(failure),
        None => stores_interpreted(parsed, raw),
    }
}

/// The view of what interpreting a chain-store answer gave.
pub open spec fn stores_view(answer: Result<StoreList, QueryError>) -> Result<Stores, Failure> {
    match answer {
        Ok(list) => Ok(list@),
        Err(error) => Err(error@),
    }
}

/// Interprets the body of a chain-store answer of which the parser's
/// outcome is at hand. `raw` is the body as it arrived.
pub fn interpret_stores_parsed(parsed: Result<Value, serde_json::Error>, raw: &str) -> (r: Result<
    StoreList,
    QueryError,
>)
    ensures
        stores_view(r) == stores_interpreted(parsed_view(parsed), raw@),
{
    match parsed {
        Err(e) => Err(QueryError::Parse { diagnostic: describe(&e), raw: raw.to_owned() }),
        Ok(v) => match decode_envelope(&v) {
            Err(fault) => Err(
                QueryError::Parse { diagnostic: fault.describe(), raw: raw.to_owned() },
            ),
            Ok(envelope) => match decode_store_list(&envelope.result_content) {
                Err(fault) => Err(
                    QueryError::Parse { diagnostic: fault.describe(), raw: raw.to_owned() },
                ),
                Ok(list) => Ok(list),
            },
        },
    }
}

/// Parses and interprets the body of a chain-store answer that reported
/// success.
pub fn interpret_stores_body(body: &str) -> (r: Result<StoreList, QueryError>)
    ensures
        stores_view(r) == stores_interpreted(parse_outcome(body@), body@),
{
    interpret_stores_parsed(parse(body), body)
}

/// Interprets a chain-store answer: its status first, then its body.
pub fn interpret_stores_response(status: u16, body: &str) -> (r: Result<StoreList, QueryError>)
    ensures
        stores_view(r) == stores_answered(status, parse_outcome(body@), body@),
{
    match check_status(status) {
        Err(error) => Err(error),
        Ok(_) => interpret_stores_body(body),
    }
}

/// A chain-store answer is an ordinary answer read further: where stores
/// come out, the ordinary query without a key succeeds on the same body,
/// carries the same message, and its data is the content the stores were
/// read from.
pub proof fn lemma_stores_refine_plain_answer(parsed: Result<Json, Seq<char>>, raw: Seq<char>)
    requires
        stores_interpreted(parsed, raw) is Ok,
    ensures
        interpreted(parsed, raw, None) is Ok,
        interpreted(parsed, raw, None)->Ok_0.message == stores_interpreted(parsed, raw)->Ok_0.msg,
        interpreted(parsed, raw, None)->Ok_0.data is Some,
        store_list_of(interpreted(parsed, raw, None)->Ok_0.data->Some_0) is Ok,
        store_list_of(interpreted(parsed, raw, None)->Ok_0.data->Some_0)->Ok_0
            == stores_interpreted(parsed, raw)->Ok_0,
{
}

} // verus!
