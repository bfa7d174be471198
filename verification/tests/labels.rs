use analytics_resource::labels::{group_failed_note, tags_unreadable_note, TagLinkStep, TagLinker};
use analytics_resource::models::{AnalyticsTag, Timestamp};

fn tag(id: &str, name: &str) -> AnalyticsTag {
    AnalyticsTag {
        id: id.to_string(),
        name: name.to_string(),
        color: None,
        icon: None,
        scope: "project".to_string(),
        created_at: Timestamp { secs: 0, nanos: 0 },
        deleted_at: None,
    }
}

fn s(v: &str) -> String {
    v.to_string()
}

#[test]
fn linker_reuses_known_tags_and_creates_the_rest_once() {
    let existing = vec![tag("at_1", "周报")];
    let mut linker = TagLinker::new(&existing, vec![s(" 周报 "), s(""), s("新"), s("新")]);
    assert_eq!(linker.next_step(), TagLinkStep::Link { name: s("周报"), tag_id: s("at_1") });
    linker.linked(Ok(()));
    assert_eq!(linker.next_step(), TagLinkStep::Create { name: s("新") }, "空名跳过，库里没有的新建");
    linker.created(Ok((s("新"), s("at_9"))));
    assert_eq!(linker.next_step(), TagLinkStep::Link { name: s("新"), tag_id: s("at_9") }, "建完马上打上");
    linker.linked(Ok(()));
    assert_eq!(linker.next_step(), TagLinkStep::Link { name: s("新"), tag_id: s("at_9") }, "同批第二次复用刚建的那条");
    linker.linked(Ok(()));
    assert_eq!(linker.next_step(), TagLinkStep::Done);
    assert!(linker.notes().is_empty());
}

#[test]
fn linker_notes_each_failure_and_goes_on() {
    let mut linker = TagLinker::new(&[], vec![s("a"), s("b")]);
    assert_eq!(linker.next_step(), TagLinkStep::Create { name: s("a") });
    linker.created(Err(s("同名标签已存在")));
    assert_eq!(linker.next_step(), TagLinkStep::Create { name: s("b") });
    linker.created(Ok((s("b"), s("at_2"))));
    assert_eq!(linker.next_step(), TagLinkStep::Link { name: s("b"), tag_id: s("at_2") });
    linker.linked(Err(s("数据库忙")));
    assert_eq!(linker.next_step(), TagLinkStep::Done);
    assert_eq!(linker.notes(), vec![s("标签「a」未建立：同名标签已存在"), s("标签「b」未打上：数据库忙")]);
}

#[test]
fn linker_names_match_case_sensitively_and_later_entries_win() {
    let existing = vec![tag("at_1", "Daily"), tag("at_2", "daily"), tag("at_3", "daily")];
    let mut linker = TagLinker::new(&existing, vec![s("daily"), s("DAILY")]);
    assert_eq!(linker.next_step(), TagLinkStep::Link { name: s("daily"), tag_id: s("at_3") });
    linker.linked(Ok(()));
    assert_eq!(linker.next_step(), TagLinkStep::Create { name: s("DAILY") });
}

#[test]
fn label_notes_name_what_failed() {
    assert_eq!(tags_unreadable_note("库异常"), "标签未打上：库异常");
    assert_eq!(group_failed_note("分组不存在"), "分组未归入：分组不存在");
}
