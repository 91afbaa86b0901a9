use video_admin::models::admin_roles::AdminRoles;
use video_admin::models::video_tags::VideoTags;
use video_admin::models::{OSSData, OSSResult, UploadResult};
use video_admin::StringHashMap;

#[test]
fn table_names_and_fields() {
    assert_eq!(AdminRoles::get_table_name(), "admin_roles");
    assert_eq!(AdminRoles::get_fields(), "id,name,remark,seq,menu_ids");
    assert_eq!(VideoTags::get_table_name(), "video_tags");
    assert_eq!(VideoTags::get_fields(), "id,name,remark,seq");
}

#[test]
fn defaults_are_empty() {
    let r = AdminRoles::default();
    assert_eq!(r.id, 0);
    assert!(r.name.is_empty());
    let t = VideoTags::default();
    assert_eq!(t.seq, 0);
}

#[test]
fn result_records() {
    let u = UploadResult { code: 0, message: "ok", path: "/upload/a.png" };
    assert_eq!(u.path, "/upload/a.png");
    let r = OSSResult {
        code: 0,
        success: true,
        msg: "",
        data: OSSData { access_id: "id", host: "h", policy: "p", signature: "s", expire: 10 },
    };
    assert_eq!(r.data.expire, 10);
}

fn form(pairs: &[(&str, &str)]) -> StringHashMap<String> {
    let mut m = StringHashMap::new();
    for (k, v) in pairs {
        m.insert(k.to_string(), v.to_string());
    }
    m
}

#[test]
fn admin_role_validation() {
    assert_eq!(AdminRoles::validate(&form(&[("name", "editor"), ("remark", ""), ("seq", "-3")])), Ok(()));
    assert_eq!(
        AdminRoles::validate(&form(&[("name", "x"), ("seq", "abc")])),
        Err("排序必须是有效的数字".to_string())
    );
    assert_eq!(AdminRoles::validate(&form(&[("name", "x"), ("seq", "1")])), Err("分类名称必须在2-20之间".to_string()));
    assert_eq!(
        AdminRoles::validate(&form(&[("name", "abcdefghijk"), ("seq", "1")])),
        Err("分类名称必须在2-20之间".to_string())
    );
    assert_eq!(AdminRoles::validate(&form(&[("seq", "1")])), Err("分类名称必须在2-20之间".to_string()));
    let long = "r".repeat(51);
    assert_eq!(
        AdminRoles::validate(&form(&[("name", "编辑人员"), ("remark", long.as_str()), ("seq", "+1")])),
        Err("备注长度必须在0-50之间".to_string())
    );
}

#[test]
fn video_tag_validation() {
    assert_eq!(VideoTags::validate(&form(&[("name", "abcdefghijk"), ("seq", "0")])), Ok(()));
    assert_eq!(VideoTags::validate(&form(&[("name", "a"), ("seq", "x")])), Err("名称必须在2-20之间".to_string()));
    assert_eq!(VideoTags::validate(&form(&[("name", "ab"), ("seq", "")])), Err("排序必须是有效的数字".to_string()));
    assert_eq!(VideoTags::validate(&form(&[("name", "ab")])), Err("排序必须是有效的数字".to_string()));
}
