use wif::data::codes::{
    analysis_type_from_str, analysis_type_to_str, layer_type_from_str, layer_type_to_str,
    priority_from_str, priority_to_str, source_from_str, source_to_str, status_from_str,
    status_to_str,
};
use wif::data::json::{from_json_array, to_json_array};
use wif::data::outcome::{anyhow_to_domain, check_affected};
use wif::data::rows::{
    ai_profile_from_row, ai_profile_to_row, attachment_from_row, attachment_to_row,
    contact_from_row, contact_to_row, gis_feature_from_row, gis_feature_to_row,
    gis_layer_from_row, gis_layer_to_row,
    mail_account_from_row, mail_account_to_row, mail_message_from_row, mail_message_to_row,
    parse_ulid_col, proposal_from_row, proposal_to_row, work_item_from_row, work_item_to_row,
    ColumnError,
};
use wif::domain::{
    AiProfile, AnalysisType, Attachment, Contact, DomainError, GisFeature, GisLayer, LayerType, MailAccount, MailMessage, Priority,
    Proposal, Source, WorkItem, WorkItemStatus,
};

fn new_id() -> u128 {
    ulid::Ulid::generate().0
}

fn sample_item() -> WorkItem {
    WorkItem {
        id: new_id(),
        title: "Test item".into(),
        content: Some("body".into()),
        status: WorkItemStatus::New,
        priority: Priority::Normal,
        source: Source::Manual,
        tags: vec!["a".into(), "b".into()],
        created_at: 1_000_000,
        updated_at: 1_000_000,
        parent_id: None,
        latitude: None,
        longitude: None,
        gis_feature_id: None,
    }
}

#[test]
fn work_item_row_roundtrip() {
    let mut item = sample_item();
    item.parent_id = Some(new_id());
    item.latitude = Some(39.9f64.to_bits());
    item.status = WorkItemStatus::InProgress;
    let row = work_item_to_row(&item);
    assert_eq!(row.status, "inProgress");
    assert_eq!(row.tags, "[\"a\",\"b\"]");
    assert_eq!(row.id, ulid::Ulid(item.id).to_string());
    let found = work_item_from_row(row).unwrap();
    assert_eq!(found.title, "Test item");
    assert_eq!(found.tags, vec!["a", "b"]);
    assert_eq!(found.id, item.id);
    assert_eq!(found.parent_id, item.parent_id);
    assert_eq!(found.status, WorkItemStatus::InProgress);
    assert_eq!(found.latitude.map(f64::from_bits), Some(39.9));
}

#[test]
fn work_item_row_with_bad_parent_reports_its_column() {
    let mut row = work_item_to_row(&sample_item());
    row.parent_id = Some("not-a-ulid".into());
    assert_eq!(work_item_from_row(row).err(), Some(ColumnError { column: 9 }));
}

#[test]
fn work_item_row_reports_id_before_other_columns() {
    let mut row = work_item_to_row(&sample_item());
    row.id = "bad".into();
    row.gis_feature_id = Some("bad".into());
    assert_eq!(work_item_from_row(row).err(), Some(ColumnError { column: 0 }));
}

#[test]
fn work_item_row_with_bad_tags_reads_no_tags() {
    let mut row = work_item_to_row(&sample_item());
    row.tags = "not json".into();
    row.status = "somethingElse".into();
    let found = work_item_from_row(row).unwrap();
    assert!(found.tags.is_empty());
    assert_eq!(found.status, WorkItemStatus::New);
}

#[test]
fn proposal_row_roundtrip() {
    let p = Proposal {
        id: new_id(),
        work_item_id: new_id(),
        analysis_type: AnalysisType::Classification,
        content: "cls".into(),
        created_at: 1_000_000,
    };
    let row = proposal_to_row(&p);
    assert_eq!(row.analysis_type, "classification");
    let back = proposal_from_row(row).unwrap();
    assert_eq!(back.id, p.id);
    assert_eq!(back.work_item_id, p.work_item_id);
    assert_eq!(back.analysis_type, AnalysisType::Classification);
    assert_eq!(back.content, "cls");
}

#[test]
fn mail_account_row_roundtrip() {
    let a = MailAccount {
        id: new_id(),
        name: "Work".into(),
        email: "me@example.com".into(),
        provider: "gmail".into(),
        imap_host: "imap.gmail.com".into(),
        imap_port: 993,
        smtp_host: "smtp.gmail.com".into(),
        smtp_port: 465,
        use_oauth: true,
        access_token: Some("tok".into()),
        refresh_token: None,
        is_active: false,
    };
    let row = mail_account_to_row(&a);
    assert_eq!((row.imap_port, row.use_oauth, row.is_active), (993, 1, 0));
    let back = mail_account_from_row(row).unwrap();
    assert_eq!(back.email, "me@example.com");
    assert!(back.use_oauth);
    assert!(!back.is_active);
    assert_eq!(back.smtp_port, 465);
    assert_eq!(back.access_token.as_deref(), Some("tok"));
}

#[test]
fn mail_account_port_is_truncated_like_as_u16() {
    let mut row = mail_account_to_row(&MailAccount {
        id: new_id(),
        name: "n".into(),
        email: "e".into(),
        provider: "p".into(),
        imap_host: "h".into(),
        imap_port: 1,
        smtp_host: "s".into(),
        smtp_port: 2,
        use_oauth: false,
        access_token: None,
        refresh_token: None,
        is_active: true,
    });
    row.imap_port = 65536 + 993;
    row.is_active = 7;
    let back = mail_account_from_row(row).unwrap();
    assert_eq!(back.imap_port, 993);
    assert!(back.is_active);
}

#[test]
fn mail_message_row_roundtrip() {
    let m = MailMessage {
        id: new_id(),
        account_id: new_id(),
        message_id: "<abc@mail>".into(),
        subject: "Hello".into(),
        from_address: "sender@x.com".into(),
        to_addresses: vec!["me@x.com".into(), "\"you\" <y@x.com>".into()],
        body_text: Some("body".into()),
        body_html: None,
        received_at: 1_000_000,
        is_read: false,
        work_item_id: Some(new_id()),
    };
    let back = mail_message_from_row(mail_message_to_row(&m)).unwrap();
    assert_eq!(back.subject, "Hello");
    assert!(!back.is_read);
    assert_eq!(back.to_addresses, m.to_addresses);
    assert_eq!(back.work_item_id, m.work_item_id);
}

#[test]
fn mail_message_row_checks_work_item_column_first() {
    let m = MailMessage {
        id: new_id(),
        account_id: new_id(),
        message_id: "m".into(),
        subject: "s".into(),
        from_address: "f".into(),
        to_addresses: vec![],
        body_text: None,
        body_html: None,
        received_at: 0,
        is_read: true,
        work_item_id: None,
    };
    let mut row = mail_message_to_row(&m);
    row.id = "bad".into();
    row.work_item_id = Some("bad".into());
    assert_eq!(mail_message_from_row(row).err(), Some(ColumnError { column: 10 }));
}

#[test]
fn gis_layer_row_roundtrip() {
    let l = GisLayer {
        id: new_id(),
        name: "Base".into(),
        layer_type: LayerType::Raster,
        source_path: Some("/data/base.geojson".into()),
        visible: false,
        opacity: 0.5f32.to_bits(),
        style_json: None,
        created_at: 1_000_000,
    };
    let back = gis_layer_from_row(gis_layer_to_row(&l)).unwrap();
    assert_eq!(back.name, "Base");
    assert_eq!(back.layer_type, LayerType::Raster);
    assert!(!back.visible);
    assert_eq!(f32::from_bits(back.opacity), 0.5);
}

#[test]
fn ai_profile_row_roundtrip() {
    let p = AiProfile {
        id: new_id(),
        name: "GPT-4".into(),
        provider: "openai".into(),
        api_key: "sk-xxx".into(),
        model: "gpt-4o".into(),
        base_url: "https://api.openai.com/v1".into(),
        is_default: true,
        max_tokens: Some(4096),
        temperature: Some(0.7f32.to_bits()),
    };
    let row = ai_profile_to_row(&p);
    assert_eq!(row.max_tokens, Some(4096));
    let back = ai_profile_from_row(row).unwrap();
    assert_eq!(back.model, "gpt-4o");
    assert!(back.is_default);
    assert_eq!(back.max_tokens, Some(4096));
    assert_eq!(back.temperature.map(f32::from_bits), Some(0.7));
}

#[test]
fn parse_ulid_col_accepts_lowercase_and_rejects_bad_text() {
    let id = 0x4d4e385051444a59454234335a413756u128;
    assert_eq!(parse_ulid_col("2D9RW50MA499CMAGHM6DD42DTP", 3), Ok(id));
    assert_eq!(parse_ulid_col("2d9rw50ma499cmaghm6dd42dtp", 3), Ok(id));
    assert_eq!(parse_ulid_col("2D9RW50MA499CMAGHM6DD42DT", 3), Err(ColumnError { column: 3 }));
    assert_eq!(parse_ulid_col("2D9RW50MA499CMAGHM6DD42DTU", 5), Err(ColumnError { column: 5 }));
}

#[test]
fn enum_codes_roundtrip() {
    for s in [
        WorkItemStatus::New,
        WorkItemStatus::InProgress,
        WorkItemStatus::Reviewing,
        WorkItemStatus::Done,
        WorkItemStatus::Archived,
    ] {
        assert_eq!(status_from_str(status_to_str(s)), s);
    }
    for p in [Priority::Low, Priority::Normal, Priority::High, Priority::Urgent] {
        assert_eq!(priority_from_str(priority_to_str(p)), p);
    }
    for s in [Source::Manual, Source::Email, Source::File, Source::Api] {
        assert_eq!(source_from_str(source_to_str(s)), s);
    }
    for l in [LayerType::Vector, LayerType::Raster, LayerType::Tile] {
        assert_eq!(layer_type_from_str(layer_type_to_str(l)), l);
    }
    for a in [
        AnalysisType::Summary,
        AnalysisType::ActionExtraction,
        AnalysisType::Classification,
        AnalysisType::PrioritySuggestion,
    ] {
        assert_eq!(analysis_type_from_str(analysis_type_to_str(a)), a);
    }
}

#[test]
fn unknown_codes_read_as_defaults() {
    assert_eq!(status_from_str("Done"), WorkItemStatus::New);
    assert_eq!(priority_from_str(""), Priority::Normal);
    assert_eq!(source_from_str("mail"), Source::Manual);
    assert_eq!(layer_type_from_str("tiles"), LayerType::Vector);
    assert_eq!(analysis_type_from_str("summary "), AnalysisType::Summary);
    assert_eq!(status_to_str(WorkItemStatus::Reviewing), "reviewing");
    assert_eq!(priority_to_str(Priority::Urgent), "urgent");
    assert_eq!(source_to_str(Source::Api), "api");
    assert_eq!(layer_type_to_str(LayerType::Tile), "tile");
    assert_eq!(analysis_type_to_str(AnalysisType::PrioritySuggestion), "prioritySuggestion");
}

#[test]
fn json_array_roundtrip() {
    let v = vec!["a".to_string(), "q\"uote".to_string(), "back\\slash\n".to_string()];
    let t = to_json_array(&v);
    assert_eq!(from_json_array(&t), v);
    assert_eq!(to_json_array(&[]), "[]");
    assert!(from_json_array("{\"a\":1}").is_empty());
    assert!(from_json_array("[1,2]").is_empty());
}

#[test]
fn no_row_changed_is_not_found() {
    let id = 0x4d4e385051444a59454234335a413756u128;
    match check_affected(0, id) {
        Err(DomainError::DatabaseError(m)) => assert_eq!(m, "not found: 2D9RW50MA499CMAGHM6DD42DTP"),
        other => panic!("unexpected {:?}", other),
    }
    assert!(check_affected(1, id).is_ok());
    assert!(check_affected(3, id).is_ok());
}

#[test]
fn store_errors_become_database_errors() {
    match anyhow_to_domain(anyhow::Error::msg("disk I/O error")) {
        DomainError::DatabaseError(m) => assert_eq!(m, "disk I/O error"),
        other => panic!("unexpected {:?}", other),
    }
}

#[test]
fn attachment_row_roundtrip() {
    let a = Attachment {
        id: new_id(),
        work_item_id: new_id(),
        file_name: "plan.pdf".into(),
        file_path: "/tmp/plan.pdf".into(),
        content_type: "application/pdf".into(),
        size: 2048,
        created_at: 1_000_000,
    };
    let row = attachment_to_row(&a);
    assert_eq!(row.work_item_id, ulid::Ulid(a.work_item_id).to_string());
    let back = attachment_from_row(row).unwrap();
    assert_eq!(back.id, a.id);
    assert_eq!(back.work_item_id, a.work_item_id);
    assert_eq!(back.file_name, "plan.pdf");
    assert_eq!(back.file_path, "/tmp/plan.pdf");
    assert_eq!(back.content_type, "application/pdf");
    assert_eq!(back.size, 2048);
    assert_eq!(back.created_at, 1_000_000);
}

#[test]
fn contact_row_roundtrip() {
    let c = Contact {
        id: new_id(),
        name: "Li Lei".into(),
        email: Some("li@example.com".into()),
        phone: None,
        organization: Some("ACME".into()),
        created_at: 7,
    };
    let back = contact_from_row(contact_to_row(&c)).unwrap();
    assert_eq!(back.id, c.id);
    assert_eq!(back.name, "Li Lei");
    assert_eq!(back.email.as_deref(), Some("li@example.com"));
    assert_eq!(back.phone, None);
    assert_eq!(back.organization.as_deref(), Some("ACME"));
    assert_eq!(back.created_at, 7);
}

#[test]
fn gis_feature_row_roundtrip() {
    let f = GisFeature {
        id: new_id(),
        layer_id: new_id(),
        geometry_wkt: "POINT(116.4 39.9)".into(),
        properties_json: Some("{}".into()),
        work_item_id: Some(new_id()),
        created_at: 42,
    };
    let back = gis_feature_from_row(gis_feature_to_row(&f)).unwrap();
    assert_eq!(back.id, f.id);
    assert_eq!(back.layer_id, f.layer_id);
    assert_eq!(back.geometry_wkt, "POINT(116.4 39.9)");
    assert_eq!(back.properties_json.as_deref(), Some("{}"));
    assert_eq!(back.work_item_id, f.work_item_id);
    assert_eq!(back.created_at, 42);
}

#[test]
fn gis_feature_row_with_bad_layer_reports_its_column() {
    let f = GisFeature {
        id: new_id(),
        layer_id: new_id(),
        geometry_wkt: "POINT(0 0)".into(),
        properties_json: None,
        work_item_id: None,
        created_at: 0,
    };
    let mut row = gis_feature_to_row(&f);
    row.layer_id = "nope".into();
    assert_eq!(gis_feature_from_row(row).err(), Some(ColumnError { column: 1 }));
}
