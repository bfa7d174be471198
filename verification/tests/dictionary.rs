use analytics_resource::dictionary::{
    create_name, folder_list_query, missing_refusal, rename_name, rename_step, tag_list_query, taken_refusal,
    Dictionary, RenameStep, StoreRefusal, FOLDER_COLUMNS, TAG_COLUMNS,
};
use analytics_resource::resource::SqlParam;

fn refusal(store: &str, operation: &str, reason: &str) -> StoreRefusal {
    StoreRefusal { store: store.to_string(), operation: operation.to_string(), reason: reason.to_string() }
}

#[test]
fn new_names_are_trimmed_and_never_blank() {
    assert_eq!(create_name(Dictionary::Tags, "  周报 ", None), Ok("周报".to_string()));
    assert_eq!(
        create_name(Dictionary::Tags, "   ", None),
        Err(refusal("analytics_tags", "insert", "标签名不能为空"))
    );
    assert_eq!(
        create_name(Dictionary::Folders, "", None),
        Err(refusal("analytics_folders", "insert", "分组名不能为空"))
    );
}

#[test]
fn folders_are_one_level_deep() {
    assert_eq!(
        create_name(Dictionary::Folders, "月报", Some("af_1")),
        Err(refusal("analytics_folders", "insert", "分组是单层的（没有子分组）——不能指定父分组"))
    );
    assert_eq!(create_name(Dictionary::Folders, "月报", None), Ok("月报".to_string()));
}

#[test]
fn renaming_to_the_current_name_changes_nothing() {
    assert_eq!(rename_step(Dictionary::Folders, "月报", " 月报 "), Ok(RenameStep::Unchanged));
    assert_eq!(rename_step(Dictionary::Folders, "月报", "季报"), Ok(RenameStep::Rename("季报".to_string())));
    assert_eq!(
        rename_step(Dictionary::Tags, "周报", " "),
        Err(refusal("analytics_tags", "rename", "标签名不能为空"))
    );
}

#[test]
fn taken_and_missing_entries_are_refused_by_name() {
    assert_eq!(
        taken_refusal(Dictionary::Folders, "insert", "月报"),
        refusal("analytics_folders", "insert", "已经有同名分组「月报」")
    );
    assert_eq!(
        taken_refusal(Dictionary::Tags, "rename", "周报"),
        refusal("analytics_tags", "rename", "已经有同名标签「周报」")
    );
    assert_eq!(missing_refusal(Dictionary::Tags, "delete"), refusal("analytics_tags", "delete", "标签不存在或已删除"));
}

#[test]
fn rename_names_are_checked_before_the_entry_is_read() {
    assert_eq!(rename_name(Dictionary::Folders, " 季报 "), Ok("季报".to_string()));
    assert_eq!(rename_name(Dictionary::Folders, "  "), Err(refusal("analytics_folders", "rename", "分组名不能为空")));
}

#[test]
fn folder_and_tag_listings_filter_live_rows() {
    let (sql, params) = folder_list_query(Some("project"), None);
    assert_eq!(
        sql,
        format!(
            "SELECT {FOLDER_COLUMNS} FROM analytics_folders WHERE deleted_at IS NULL AND scope = ? \
             AND parent_folder_id IS NULL ORDER BY sort_order ASC, name ASC"
        )
    );
    assert_eq!(params, vec![SqlParam::Text("project".to_string())]);
    let (sql, params) = folder_list_query(None, Some("af_1"));
    assert!(sql.contains("AND parent_folder_id = ? ORDER BY"));
    assert_eq!(params, vec![SqlParam::Text("af_1".to_string())]);
    let (sql, params) = tag_list_query(None);
    assert_eq!(sql, format!("SELECT {TAG_COLUMNS} FROM analytics_tags WHERE deleted_at IS NULL ORDER BY name ASC"));
    assert!(params.is_empty());
}
