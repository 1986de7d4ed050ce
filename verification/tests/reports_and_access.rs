use labrinth::models::ids::{ImageId, ProjectId, UserId, VersionId};
use labrinth::models::reports::ItemType;
use labrinth::routes::v2::reports as v2_reports;
use labrinth::routes::v2::signing_keys::{check_key_delete, keys_to_delete};
use labrinth::routes::v3::notifications::{check_notification_action, open_notifications, NotificationAction};
use labrinth::routes::v3::reports::{
    check_report_image, check_report_item, invalid_report_type, report_image_missing, default_all, default_count, lists_all_open_reports, plan_report_edit, report_target,
    visible_reports, EditReport, ReportClosing, ReportTarget, ReportsRequestOptions, ThreadEvent,
};
use labrinth::routes::ApiError;
use labrinth::util::access::accessible_positions;

#[test]
fn report_target_decodes_item_ids() {
    assert!(matches!(report_target(ItemType::Project, "10"), Ok(ReportTarget::Project(ProjectId(62)))));
    assert!(matches!(report_target(ItemType::Version, "z"), Ok(ReportTarget::Version(VersionId(61)))));
    assert!(matches!(report_target(ItemType::User, "1"), Ok(ReportTarget::User(UserId(1)))));
    assert!(matches!(report_target(ItemType::User, "?"), Err(ApiError::Decoding(_))));
    match report_target(ItemType::Unknown, "10") {
        Err(ApiError::InvalidInput(m)) => assert_eq!(m, "Invalid report item type: unknown"),
        _ => panic!("unknown item type must be refused"),
    }
}

#[test]
fn report_image_must_be_unused_report_image() {
    assert!(check_report_image(ImageId(62), true, false).is_ok());
    match check_report_image(ImageId(62), false, false) {
        Err(ApiError::InvalidInput(m)) => assert_eq!(m, "Image 10 is not unused and in the 'report' context"),
        _ => panic!("expected refusal"),
    }
    assert!(check_report_image(ImageId(62), true, true).is_err());
}

#[test]
fn report_listing_defaults_and_scope() {
    assert_eq!(default_count(), 100);
    assert!(default_all());
    assert_eq!(v2_reports::default_count(), 100);
    assert!(v2_reports::default_all());
    let opts = ReportsRequestOptions { count: 100, all: true };
    assert!(lists_all_open_reports(true, &opts));
    assert!(!lists_all_open_reports(false, &opts));
}

#[test]
fn reports_shown_to_reporter_or_moderator() {
    let reporters = [UserId(1), UserId(2), UserId(1)];
    assert_eq!(visible_reports(&reporters, UserId(1), false), vec![0, 2]);
    assert_eq!(visible_reports(&reporters, UserId(3), true), vec![0, 1, 2]);
    assert_eq!(accessible_positions(&reporters, UserId(3), false), Vec::<usize>::new());
}

#[test]
fn report_edit_rules() {
    let close = EditReport { body: None, closed: Some(true) };
    assert!(matches!(plan_report_edit(false, UserId(1), UserId(2), false, &close), Err(ApiError::NotFound)));
    match plan_report_edit(false, UserId(1), UserId(1), false, &close) {
        Err(ApiError::InvalidInput(m)) => assert_eq!(m, "You cannot reopen a report!"),
        _ => panic!("reporter cannot close"),
    }
    let plan = plan_report_edit(true, UserId(1), UserId(2), false, &close).ok().unwrap().unwrap();
    assert_eq!(plan, ReportClosing { message: ThreadEvent::ThreadClosure, closed: true, show_in_mod_inbox: false });
    let reopen = EditReport { body: None, closed: Some(false) };
    let plan = plan_report_edit(true, UserId(1), UserId(2), true, &reopen).ok().unwrap().unwrap();
    assert_eq!(plan, ReportClosing { message: ThreadEvent::ThreadReopen, closed: false, show_in_mod_inbox: false });
    let still_open = plan_report_edit(true, UserId(1), UserId(2), false, &reopen).ok().unwrap().unwrap();
    assert!(still_open.show_in_mod_inbox);
    let body_only = EditReport { body: Some("x".to_string()), closed: None };
    assert!(matches!(plan_report_edit(false, UserId(1), UserId(1), false, &body_only), Ok(None)));
}

#[test]
fn v2_report_bodies_convert() {
    let r = v2_reports::CreateReport {
        report_type: "spam".to_string(),
        item_id: "10".to_string(),
        item_type: ItemType::Project,
        body: "b".to_string(),
        uploaded_images: vec![ImageId(3)],
    }
    .into_v3();
    assert_eq!(r.report_type, "spam");
    assert_eq!(r.item_type, ItemType::Project);
    assert_eq!(r.uploaded_images, vec![ImageId(3)]);
    let o = v2_reports::ReportsRequestOptions { count: 5, all: false }.into_v3();
    assert_eq!((o.count, o.all), (5, false));
}

#[test]
fn notification_rules() {
    assert!(check_notification_action(UserId(1), UserId(1), false, NotificationAction::Delete).is_ok());
    assert!(matches!(
        check_notification_action(UserId(1), UserId(2), false, NotificationAction::See),
        Err(ApiError::NotFound)
    ));
    match check_notification_action(UserId(1), UserId(2), false, NotificationAction::Read) {
        Err(ApiError::CustomAuthentication(m)) => assert_eq!(m, "You are not authorized to read this notification!"),
        _ => panic!(),
    }
    assert!(check_notification_action(UserId(1), UserId(2), true, NotificationAction::Read).is_ok());
    assert_eq!(open_notifications(&[UserId(2), UserId(1)], UserId(1), false), vec![1]);
}

#[test]
fn signing_key_deletion() {
    assert!(check_key_delete(UserId(1), UserId(1), false).is_ok());
    match check_key_delete(UserId(1), UserId(2), false) {
        Err(ApiError::CustomAuthentication(m)) => assert_eq!(m, "You are not authorized to delete this key!"),
        _ => panic!(),
    }
    assert_eq!(keys_to_delete(&[UserId(1), UserId(2)], UserId(2), false), vec![1]);
    assert_eq!(keys_to_delete(&[UserId(1), UserId(2)], UserId(3), true), vec![0, 1]);
}

#[test]
fn report_refusals_name_the_item() {
    assert!(check_report_item(ReportTarget::Project(ProjectId(1)), "AAAA", true).is_ok());
    assert!(matches!(check_report_item(ReportTarget::Project(ProjectId(1)), "AAAA", false),
        Err(ApiError::InvalidInput(m)) if m == "Project could not be found: AAAA"));
    assert!(matches!(check_report_item(ReportTarget::Version(VersionId(1)), "b2", false),
        Err(ApiError::InvalidInput(m)) if m == "Version could not be found: b2"));
    assert!(matches!(check_report_item(ReportTarget::User(UserId(1)), "u", false),
        Err(ApiError::InvalidInput(m)) if m == "User could not be found: u"));
    assert!(matches!(invalid_report_type("spamm"), ApiError::InvalidInput(m) if m == "Invalid report type: spamm"));
    assert!(matches!(report_image_missing(ImageId(62)), ApiError::InvalidInput(m) if m == "Image 10 could not be found"));
}
