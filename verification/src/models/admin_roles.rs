use vstd::prelude::*;
use vstd::hash_map::StringHashMap;
use crate::validations::{Validator, numeric_ok, length_ok, limit_ok};
use crate::numbers::is_integer_text;

verus! {

/// The message of the first rule that the posted values break, if any (the name rule
/// allows at most 10 characters, though its message reads 2-20):
/// `seq` must write an integer; `name` must have 2 to 10 characters; `remark` may have at most 50 characters.
pub open spec fn admin_role_error(data: Map<Seq<char>, String>) -> Option<Seq<char>> {
    if !numeric_ok(data, "seq"@) {
        Some("排序必须是有效的数字"@)
    } else if !length_ok(data, "name"@, 2, 10, true) {
        Some("分类名称必须在2-20之间"@)
    } else if !limit_ok(data, "remark"@, 50) {
        Some("备注长度必须在0-50之间"@)
    } else {
        None
    }
}

/// A posted form is accepted exactly when `seq` is posted and writes an integer, `name`
/// is posted with 2 to 10 characters, and `remark` is missing or has at most 50
/// characters; a refusal names the first broken rule, in the order `seq`, `name`, `remark`: the number message only for a bad
/// `seq`, the name message only for a bad `name`, the remark message only for a remark
/// over 50 characters.
pub proof fn lemma_role_form_rules(data: Map<Seq<char>, String>)
    ensures
        admin_role_error(data) is None <==> (
            (data.contains_key("seq"@) && is_integer_text(data["seq"@]@))
            && (data.contains_key("name"@) && 2 <= data["name"@]@.len() && data["name"@]@.len() <= 10)
            && (!data.contains_key("remark"@) || data["remark"@]@.len() <= 50)
        ),
        admin_role_error(data) == Some("排序必须是有效的数字"@) ==> !(data.contains_key("seq"@) && is_integer_text(data["seq"@]@)),
        admin_role_error(data) == Some("分类名称必须在2-20之间"@) ==> !(data.contains_key("name"@) && 2 <= data["name"@]@.len()
            && data["name"@]@.len() <= 10) && data.contains_key("seq"@) && is_integer_text(data["seq"@]@),
        admin_role_error(data) == Some("备注长度必须在0-50之间"@) ==> data.contains_key("remark"@) && data["remark"@]@.len() > 50
            && data.contains_key("seq"@) && is_integer_text(data["seq"@]@)
            && data.contains_key("name"@) && 2 <= data["name"@]@.len() && data["name"@]@.len() <= 10,
        admin_role_error(data) is Some ==> admin_role_error(data) == Some("排序必须是有效的数字"@) || admin_role_error(data) == Some("分类名称必须在2-20之间"@)
            || admin_role_error(data) == Some("备注长度必须在0-50之间"@),
{
    reveal_strlit("排序必须是有效的数字");
    reveal_strlit("分类名称必须在2-20之间");
    reveal_strlit("备注长度必须在0-50之间");
    assert("排序必须是有效的数字"@.len() == 10 && "排序必须是有效的数字"@[0] == '排');
    assert("分类名称必须在2-20之间"@.len() == 13 && "分类名称必须在2-20之间"@[0] == '分');
    assert("备注长度必须在0-50之间"@.len() == 13 && "备注长度必须在0-50之间"@[0] == '备');
}

/// A role of the back office.
#[derive(Default, Debug)]
pub struct AdminRoles {
    pub id: usize,
    pub name: String,
    pub remark: String,
    pub seq: isize,
    /// The menus the role may open.
    pub menu_ids: String,
}

impl AdminRoles {
    /// The table that holds the roles.
    pub fn get_table_name() -> (name: &'static str)
        ensures
            name@ == "admin_roles"@,
    {
        "admin_roles"
    }

    /// The columns read for a listing, in the order the record is filled from.
    pub fn get_fields() -> (fields: &'static str)
        ensures
            fields@ == "id,name,remark,seq,menu_ids"@,
    {
        "id,name,remark,seq,menu_ids"
    }
    /// Checks a posted form, rule after rule; answers with the first failed rule's message.
    pub fn validate(data: &StringHashMap<String>) -> (r: Result<(), String>)
        ensures
            match r {
                Ok(_) => admin_role_error(data@) is None,
                Err(m) => admin_role_error(data@) == Some(m@),
            },
    {
        Validator::load(data)
            .is_numeric("seq", "排序必须是有效的数字")
            .string_length("name", "分类名称必须在2-20之间", 2, 10, true)
            .string_limit("remark", "备注长度必须在0-50之间", 50)
            .validate()
    }
}

} // verus!
