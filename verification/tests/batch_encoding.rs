use dataverse_client::batch::Batch;
use dataverse_client::error::DataverseError;
use dataverse_client::entity::WriteEntity;
use dataverse_client::guid::Guid;
use dataverse_client::reference::{Reference, ReferenceStruct};

struct Contact {
    id: Guid,
    first: &'static str,
}

impl Reference for Contact {
    fn get_reference(&self) -> ReferenceStruct {
        ReferenceStruct::new("contacts", self.id)
    }
}

impl WriteEntity for Contact {
    fn to_json(&self) -> Result<String, DataverseError> {
        Ok(format!("{{\"firstname\":\"{}\"}}", self.first))
    }
}

struct Broken {
    id: Guid,
}

impl Reference for Broken {
    fn get_reference(&self) -> ReferenceStruct {
        ReferenceStruct::new("contacts", self.id)
    }
}

impl WriteEntity for Broken {
    fn to_json(&self) -> Result<String, DataverseError> {
        Err(DataverseError::new(String::from("cannot serialize")))
    }
}

fn known_batch() -> Batch {
    Batch {
        url: "https://instance.crm.dynamics.com/",
        batch_id: Guid::new(0x22222222_2222_2222_2222_222222222222),
        dataset_id: Guid::new(0x11111111_1111_1111_1111_111111111111),
        payload: String::new(),
        next_content_id: 1,
    }
}

const DS: &str = "11111111111111111111111111111111";
const BA: &str = "22222222222222222222222222222222";

fn part_header(content_id: u16) -> String {
    format!(
        "--changeset_{}\nContent-Type: application/http\nContent-Transfer-Encoding:binary\nContent-Id: {}\n\n",
        DS, content_id
    )
}

#[test]
fn empty_batch_renders_boundaries_only() {
    let batch = known_batch();
    assert_eq!(batch.get_count(), 0);
    assert_eq!(
        batch.to_string(),
        format!(
            "--batch_{}\nContent-Type: multipart/mixed; boundary=changeset_{}\n\n--changeset_{}--\n--batch_{}--",
            BA, DS, DS, BA
        )
    );
}

#[test]
fn create_then_delete_frames_in_order() {
    let mut batch = known_batch();
    let contact = Contact { id: Guid::new(0x33333333_3333_3333_3333_333333333333), first: "Testy" };
    batch.create(&contact).unwrap();
    batch
        .delete(&ReferenceStruct::new(
            "contacts",
            Guid::new(0x33333333_3333_3333_3333_333333333333),
        ))
        .unwrap();
    assert_eq!(batch.get_count(), 2);

    let expected = format!(
        "--batch_{}\nContent-Type: multipart/mixed; boundary=changeset_{}\n\n\
         {}POST https://instance.crm.dynamics.com/api/data/v9.2/contacts HTTP/1.1\n\
         Content-Type: application/json;type=entry\n\n{{\"firstname\":\"Testy\"}}\n\
         {}DELETE https://instance.crm.dynamics.com/api/data/v9.2/contacts(33333333-3333-3333-3333-333333333333) HTTP/1.1\n\n\
         --changeset_{}--\n--batch_{}--",
        BA,
        DS,
        part_header(1),
        part_header(2),
        DS,
        BA
    );
    let body = batch.to_string();
    assert_eq!(body, expected);

    let post_at = body.find("POST ").unwrap();
    let delete_at = body.find("DELETE ").unwrap();
    assert!(post_at < delete_at);
    assert!(body.starts_with(&format!("--batch_{}\n", BA)));
    assert!(body.ends_with(&format!("--batch_{}--", BA)));
    assert_eq!(body.matches(&format!("--batch_{}", BA)).count(), 2);
}

#[test]
fn update_includes_if_match_and_upsert_does_not() {
    let mut batch = known_batch();
    let contact = Contact { id: Guid::new(0x44444444_4444_4444_4444_444444444444), first: "Mia" };
    batch.update(&contact).unwrap();
    let body = batch.to_string();
    assert!(body.contains(
        "PATCH https://instance.crm.dynamics.com/api/data/v9.2/contacts(44444444-4444-4444-4444-444444444444) HTTP/1.1"
    ));
    assert!(body.contains("If-Match: *"));

    let mut batch = known_batch();
    batch.upsert(&contact).unwrap();
    let body = batch.to_string();
    assert!(body.contains(
        "PATCH https://instance.crm.dynamics.com/api/data/v9.2/contacts(44444444-4444-4444-4444-444444444444) HTTP/1.1"
    ));
    assert!(!body.contains("If-Match"));
}

#[test]
fn content_ids_count_up_from_one() {
    let mut batch = known_batch();
    let contact = Contact { id: Guid::new(0x55555555_5555_5555_5555_555555555555), first: "Ann" };
    batch.create(&contact).unwrap();
    batch.update(&contact).unwrap();
    batch.upsert(&contact).unwrap();
    batch.delete(&contact).unwrap();
    assert_eq!(batch.get_count(), 4);

    let body = batch.to_string();
    assert_eq!(body.matches("Content-Id: ").count(), 4);
    let p1 = body.find("Content-Id: 1\n").unwrap();
    let p2 = body.find("Content-Id: 2\n").unwrap();
    let p3 = body.find("Content-Id: 3\n").unwrap();
    let p4 = body.find("Content-Id: 4\n").unwrap();
    assert!(p1 < p2 && p2 < p3 && p3 < p4);
}

#[test]
fn serialization_failure_leaves_batch_unchanged() {
    let mut batch = known_batch();
    let contact = Contact { id: Guid::new(0x66666666_6666_6666_6666_666666666666), first: "Bo" };
    batch.create(&contact).unwrap();
    let before = batch.to_string();

    let broken = Broken { id: Guid::new(0x66666666_6666_6666_6666_666666666666) };
    let err = batch.create(&broken).unwrap_err();
    assert_eq!(err.text(), "cannot serialize");
    assert_eq!(batch.get_count(), 1);
    assert_eq!(batch.to_string(), before);

    let err = batch.update(&broken).unwrap_err();
    assert_eq!(err.text(), "cannot serialize");
    let err = batch.upsert(&broken).unwrap_err();
    assert_eq!(err.text(), "cannot serialize");
    assert_eq!(batch.to_string(), before);
}

#[test]
fn reset_clears_operations_and_redraws_identifiers() {
    let mut batch = Batch::new("https://instance.crm.dynamics.com/");
    let contact = Contact { id: Guid::new(0x77777777_7777_7777_7777_777777777777), first: "Cy" };
    batch.create(&contact).unwrap();
    batch.create(&contact).unwrap();
    assert_eq!(batch.get_count(), 2);

    let old_batch_id = batch.get_batch_id();
    let old_dataset_id = batch.get_dataset_id();
    batch.reset();
    assert_eq!(batch.get_count(), 0);
    assert_ne!(batch.get_batch_id(), old_batch_id);
    assert_ne!(batch.get_dataset_id(), old_dataset_id);
    for bits in [batch.get_batch_id().bits, batch.get_dataset_id().bits] {
        assert_eq!((bits >> 76) & 0xF, 4);
        assert_eq!((bits >> 62) & 0x3, 2);
    }
    assert!(!batch.to_string().contains("POST "));
}

#[test]
fn drawn_identifiers_have_version_and_variant_bits() {
    let batch = Batch::new("https://instance.crm.dynamics.com/");
    for bits in [batch.get_batch_id().bits, batch.get_dataset_id().bits] {
        assert_eq!((bits >> 76) & 0xF, 4);
        assert_eq!((bits >> 62) & 0x3, 2);
    }
    assert_ne!(batch.get_batch_id(), batch.get_dataset_id());
}

#[test]
fn reference_struct_display_form() {
    let r = ReferenceStruct::new("contacts", Guid::new(0x12345678_1234_1234_1234_123456789ABC));
    assert_eq!(r.to_string(), "contacts:(12345678123412341234123456789abc)");
    assert_eq!(r.get_reference(), r);
}

#[test]
fn error_carries_its_message() {
    let e = DataverseError::new(String::from("boom"));
    assert_eq!(e.text(), "boom");
    assert_eq!(e.message, "boom");
}
