use vstd::prelude::*;
use vstd::hash_map::StringHashMap;
use crate::validations::{Validator, numeric_ok, length_ok, limit_ok};
use crate::numbers::is_integer_text;

verus! {

/// The message of the first rule that the posted values break, if any:
/// `name` must have 2 to 20 characters; `remark` may have at most 50 characters; `seq` must write an integer.
pub open spec fn video_tag_error(data: Map<Seq<char>, String>) -> Option<Seq<char>> {
    if !length_ok(data, "name"@, 2, 20, true) {
        Some("名称必须在2-20之间"@)
    } else if !limit_ok(data, "remark"@, 50) {
        Some("备注长度必须在0-50之间"@)
    } else if !numeric_ok(data, "seq"@) {
        Some("排序必须是有效的数字"@)
    } else {
        None
    }
}

/// A posted form is accepted exactly when `seq` is posted and writes an integer, `name`
/// is posted with 2 to 20 characters, and `remark` is missing or has at most 50
/// characters; a refusal names the first broken rule, in the order `name`, `remark`, `seq`: the number message only for a bad
/// `seq`, the name message only for a bad `name`, the remark message only for a remark
/// over 50 characters.
pub proof fn lemma_tag_form_rules(data: Map<Seq<char>, String>)
    ensures
        video_tag_error(data) is None <==> (
            (data.contains_key("seq"@) && is_integer_text(data["seq"@]@))
            && (data.contains_key("name"@) && 2 <= data["name"@]@.len() && data["name"@]@.len() <= 20)
            && (!data.contains_key("remark"@) || data["remark"@]@.len() <= 50)
        ),
        video_tag_error(data) == Some("排序必须是有效的数字"@) ==> !(data.contains_key("seq"@) && is_integer_text(data["seq"@]@))
            && data.contains_key("name"@) && 2 <= data["name"@]@.len() && data["name"@]@.len() <= 20
            && (!data.contains_key("remark"@) || data["remark"@]@.len() <= 50),
        video_tag_error(data) == Some("名称必须在2-20之间"@) ==> !(data.contains_key("name"@) && 2 <= data["name"@]@.len()
            && data["name"@]@.len() <= 20),
        video_tag_error(data) == Some("备注长度必须在0-50之间"@) ==> data.contains_key("remark"@) && data["remark"@]@.len() > 50
            && data.contains_key("name"@) && 2 <= data["name"@]@.len() && data["name"@]@.len() <= 20,
        video_tag_error(data) is Some ==> video_tag_error(data) == Some("排序必须是有效的数字"@) || video_tag_error(data) == Some("名称必须在2-20之间"@)
            || video_tag_error(data) == Some("备注长度必须在0-50之间"@),
{
    reveal_strlit("排序必须是有效的数字");
    reveal_strlit("名称必须在2-20之间");
    reveal_strlit("备注长度必须在0-50之间");
    assert("排序必须是有效的数字"@.len() == 10 && "排序必须是有效的数字"@[0] == '排');
    assert("名称必须在2-20之间"@.len() == 11 && "名称必须在2-20之间"@[0] == '名');
    assert("备注长度必须在0-50之间"@.len() == 13 && "备注长度必须在0-50之间"@[0] == '备');
}

/// A tag that videos can carry.
#[derive(Default, Debug)]
pub struct VideoTags {
    pub id: usize,
    pub name: String,
    pub remark: String,
    pub seq: isize,
}

impl VideoTags {
    /// The table that holds the tags.
    pub fn get_table_name() -> (name: &'static str)
        ensures
            name@ == "video_tags"@,
    {
        "video_tags"
    }

    /// The columns read for a listing, in the order the record is filled from.
    pub fn get_fields() -> (fields: &'static str)
        ensures
            fields@ == "id,name,remark,seq"@,
    {
        "id,name,remark,seq"
    }
    /// Checks a posted form, rule after rule; answers with the first failed rule's message.
    pub fn validate(data: &StringHashMap<String>) -> (r: Result<(), String>)
        ensures
            match r {
                Ok(_) => video_tag_error(data@) is None,
                Err(m) => video_tag_error(data@) == Some(m@),
            },
    {
        Validator::load(data)
            .string_length("name", "名称必须在2-20之间", 2, 20, true)
            .string_limit("remark", "备注长度必须在0-50之间", 50)
            .is_numeric("seq", "排序必须是有效的数字")
            .validate()
    }
}

} // verus!
