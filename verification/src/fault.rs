//! What can be wrong with the shape of a JSON value that parsed well.

use vstd::prelude::*;

verus! {

/// The members that the library looks for in a response.
#[derive(Clone, Copy, Debug, PartialEq, Eq)]
pub enum Field {
    ResultContent,
    Resource,
    Method,
    ResultCode,
    ErrorMsg,
    StoreList,
    StoreId,
    StoreName,
    SchoolId,
    SchoolName,
    StoreTypeCode,
    StoreTypeName,
    ParentCode,
    ParentName,
    StoreCode,
    StreetId,
    Enable,
    Logo,
}

impl Field {
    /// The member's key as it is written in the JSON text.
    pub open spec fn key(self) -> Seq<char> {
        match self {
            Field::ResultContent => "resultContent"@,
            Field::Resource => "resource"@,
            Field::Method => "method"@,
            Field::ResultCode => "result"@,
            Field::ErrorMsg => "errorMsg"@,
            Field::StoreList => "storeList"@,
            Field::StoreId => "storeId"@,
            Field::StoreName => "storeName"@,
            Field::SchoolId => "schoolId"@,
            Field::SchoolName => "schoolName"@,
            Field::StoreTypeCode => "storeTypeCode"@,
            Field::StoreTypeName => "storeTypeName"@,
            Field::ParentCode => "parentCode"@,
            Field::ParentName => "parentName"@,
            Field::StoreCode => "storeCode"@,
            Field::StreetId => "streetId"@,
            Field::Enable => "enable"@,
            Field::Logo => "logo"@,
        }
    }

    /// The member's key.
    pub fn name(self) -> (r: &'static str)
        ensures
            r@ == self.key(),
    {
        match self {
            Field::ResultContent => "resultContent",
            Field::Resource => "resource",
            Field::Method => "method",
            Field::ResultCode => "result",
            Field::ErrorMsg => "errorMsg",
            Field::StoreList => "storeList",
            Field::StoreId => "storeId",
            Field::StoreName => "storeName",
            Field::SchoolId => "schoolId",
            Field::SchoolName => "schoolName",
            Field::StoreTypeCode => "storeTypeCode",
            Field::StoreTypeName => "storeTypeName",
            Field::ParentCode => "parentCode",
            Field::ParentName => "parentName",
            Field::StoreCode => "storeCode",
            Field::StreetId => "streetId",
            Field::Enable => "enable",
            Field::Logo => "logo",
        }
    }
}

/// Why a JSON value does not have the shape that was asked of it.
#[derive(Clone, Copy, Debug, PartialEq, Eq)]
pub enum ShapeFault {
    /// The value is not an object.
    NotAnObject,
    /// The object has no member of this name.
    Missing(Field),
    /// The member is there but is not a string.
    NotText(Field),
    /// The member is there but is not an array.
    NotArray(Field),
}

impl ShapeFault {
    /// The fault in words.
    pub open spec fn text(self) -> Seq<char> {
        match self {
            ShapeFault::NotAnObject => "expected a JSON object"@,
            ShapeFault::Missing(f) => "missing field `"@ + f.key() + "`"@,
            ShapeFault::NotText(f) => "field `"@ + f.key() + "` is not a string"@,
            ShapeFault::NotArray(f) => "field `"@ + f.key() + "` is not an array"@,
        }
    }

    /// Puts the fault in words.
    pub fn describe(self) -> (r: String)
        ensures
            r@ == self.text(),
    {
        match self {
            ShapeFault::NotAnObject => "expected a JSON object".to_owned(),
            ShapeFault::Missing(f) => "missing field `".to_owned().concat(f.name()).concat("`"),
            ShapeFault::NotText(f) => "field `".to_owned().concat(f.name()).concat(
                "` is not a string",
            ),
            ShapeFault::NotArray(f) => "field `".to_owned().concat(f.name()).concat(
                "` is not an array",
            ),
        }
    }
}

} // verus!
