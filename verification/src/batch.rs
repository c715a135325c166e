//! The batch encoder: accumulates create, update, upsert and delete
//! operations as multipart MIME parts sharing one changeset, each with
//! a sequential content-id, and renders the whole body with the batch
//! boundary around it.

use vstd::prelude::*;

use crate::client::{simple_url_text, targeted_url_text};
use crate::entity::WriteEntity;
use crate::error::DataverseError;
use crate::guid::Guid;
use crate::reference::Reference;
use crate::text::{append_str, append_u64, clear_str, dec_digits};

verus! {

/// The changeset-boundary line and fixed part headers that precede one
/// framed operation, ending with that operation's content-id.
pub open spec fn part_header_text(dataset_id: Guid, content_id: nat) -> Seq<char> {
    "--changeset_"@ + dataset_id.simple_text()
        + "\nContent-Type: application/http\nContent-Transfer-Encoding:binary\nContent-Id: "@
        + dec_digits(content_id) + "\n\n"@
}

/// The frame a create operation appends: a POST to the entity
/// collection, a JSON content-type, and the serialized entity body.
pub open spec fn create_frame_text(
    dataset_id: Guid,
    content_id: nat,
    url: Seq<char>,
    entity_name: Seq<char>,
    body: Seq<char>,
) -> Seq<char> {
    part_header_text(dataset_id, content_id) + "POST "@ + simple_url_text(url, entity_name)
        + " HTTP/1.1\nContent-Type: application/json;type=entry\n\n"@ + body + "\n"@
}

/// The frame an update operation appends: a PATCH to one record with
/// `If-Match: *`, so the operation fails when the record is absent.
pub open spec fn update_frame_text(
    dataset_id: Guid,
    content_id: nat,
    url: Seq<char>,
    entity_name: Seq<char>,
    entity_id: Guid,
    body: Seq<char>,
) -> Seq<char> {
    part_header_text(dataset_id, content_id) + "PATCH "@ + targeted_url_text(
        url,
        entity_name,
        entity_id,
    ) + " HTTP/1.1\nContent-Type: application/json;type=entry\nIf-Match: *\n\n"@ + body + "\n"@
}

/// The frame an upsert operation appends: as for update but without
/// `If-Match`, so the record is created when absent.
pub open spec fn upsert_frame_text(
    dataset_id: Guid,
    content_id: nat,
    url: Seq<char>,
    entity_name: Seq<char>,
    entity_id: Guid,
    body: Seq<char>,
) -> Seq<char> {
    part_header_text(dataset_id, content_id) + "PATCH "@ + targeted_url_text(
        url,
        entity_name,
        entity_id,
    ) + " HTTP/1.1\nContent-Type: application/json;type=entry\n\n"@ + body + "\n"@
}

/// The frame a delete operation appends: a DELETE of one record, with
/// no body.
pub open spec fn delete_frame_text(
    dataset_id: Guid,
    content_id: nat,
    url: Seq<char>,
    entity_name: Seq<char>,
    entity_id: Guid,
) -> Seq<char> {
    part_header_text(dataset_id, content_id) + "DELETE "@ + targeted_url_text(
        url,
        entity_name,
        entity_id,
    ) + " HTTP/1.1\n\n"@
}

/// The rendering of a whole batch around its accumulated parts: the
/// batch boundary, the multipart header naming the changeset boundary,
/// the parts, the changeset terminator and the batch terminator.
pub open spec fn batch_body_text(batch_id: Guid, dataset_id: Guid, payload: Seq<char>) -> Seq<
    char,
> {
    "--batch_"@ + batch_id.simple_text() + "\nContent-Type: multipart/mixed; boundary=changeset_"@
        + dataset_id.simple_text() + "\n\n"@ + payload + "--changeset_"@ + dataset_id.simple_text()
        + "--\n--batch_"@ + batch_id.simple_text() + "--"@
}

/// Law: a create frame appended at content-id `n` followed by a delete
/// frame at `n + 1` render, inside the whole batch body, as exactly one
/// POST sub-request and then one DELETE sub-request, each preceded by
/// the changeset boundary of the same changeset identifier, with the
/// batch boundary once at the start and its terminator once at the end.
pub proof fn lemma_create_then_delete_layout(
    batch_id: Guid,
    dataset_id: Guid,
    url: Seq<char>,
    entity_name: Seq<char>,
    body: Seq<char>,
    entity_id: Guid,
    n: nat,
)
    ensures
        batch_body_text(
            batch_id,
            dataset_id,
            create_frame_text(dataset_id, n, url, entity_name, body) + delete_frame_text(
                dataset_id,
                n + 1,
                url,
                entity_name,
                entity_id,
            ),
        ) == "--batch_"@ + batch_id.simple_text()
            + "\nContent-Type: multipart/mixed; boundary=changeset_"@ + dataset_id.simple_text()
            + "\n\n"@ + part_header_text(dataset_id, n) + "POST "@ + simple_url_text(
            url,
            entity_name,
        ) + " HTTP/1.1\nContent-Type: application/json;type=entry\n\n"@ + body + "\n"@
            + part_header_text(dataset_id, n + 1) + "DELETE "@ + targeted_url_text(
            url,
            entity_name,
            entity_id,
        ) + " HTTP/1.1\n\n"@ + "--changeset_"@ + dataset_id.simple_text() + "--\n--batch_"@
            + batch_id.simple_text() + "--"@,
{
    assert(batch_body_text(
        batch_id,
        dataset_id,
        create_frame_text(dataset_id, n, url, entity_name, body) + delete_frame_text(
            dataset_id,
            n + 1,
            url,
            entity_name,
            entity_id,
        ),
    ) =~= "--batch_"@ + batch_id.simple_text()
        + "\nContent-Type: multipart/mixed; boundary=changeset_"@ + dataset_id.simple_text()
        + "\n\n"@ + part_header_text(dataset_id, n) + "POST "@ + simple_url_text(url, entity_name)
        + " HTTP/1.1\nContent-Type: application/json;type=entry\n\n"@ + body + "\n"@
        + part_header_text(dataset_id, n + 1) + "DELETE "@ + targeted_url_text(
        url,
        entity_name,
        entity_id,
    ) + " HTTP/1.1\n\n"@ + "--changeset_"@ + dataset_id.simple_text() + "--\n--batch_"@
        + batch_id.simple_text() + "--"@);
}

/// A batch of write operations against one organization URL.
///
/// Operations are framed into `payload` in call order; `next_content_id`
/// is the content-id the next appended operation receives, so it starts
/// at one and grows by exactly one per appended frame. The batch and
/// changeset identifiers are drawn at construction and on reset.
pub struct Batch {
    /// The organization's base URL, put before every sub-request path.
    pub url: &'static str,
    /// The identifier naming the outer multipart boundary.
    pub batch_id: Guid,
    /// The identifier naming the nested changeset boundary.
    pub dataset_id: Guid,
    /// The accumulated frames, in call order.
    pub payload: String,
    /// The content-id the next appended operation receives.
    pub next_content_id: u16,
}

impl Batch {
    /// Holds between calls: content-ids start at one.
    pub open spec fn wf(self) -> bool {
        1 <= self.next_content_id
    }

    /// How many operations the batch holds.
    pub open spec fn count(self) -> int {
        self.next_content_id - 1
    }

    /// A new empty batch for the given URL. Both identifiers are drawn
    /// at random; every draw carries the version nibble 4 and the
    /// variant bits `10`, which the contract passes on (freshness of a
    /// random draw cannot be stated).
    pub fn new(url: &'static str) -> (r: Self)
        ensures
            r.wf(),
            r.url == url,
            r.payload@ == Seq::<char>::empty(),
            r.next_content_id == 1,
            r.batch_id.bits & 0xF000_0000_0000_0000_0000 == 0x4000_0000_0000_0000_0000,
            r.batch_id.bits & 0xC000_0000_0000_0000 == 0x8000_0000_0000_0000,
            r.dataset_id.bits & 0xF000_0000_0000_0000_0000 == 0x4000_0000_0000_0000_0000,
            r.dataset_id.bits & 0xC000_0000_0000_0000 == 0x8000_0000_0000_0000,
    {
        Self {
            url,
            batch_id: Guid::random(),
            dataset_id: Guid::random(),
            payload: String::new(),
            next_content_id: 1,
        }
    }

    /// Clears the accumulated operations and draws new batch and
    /// changeset identifiers, keeping the buffer for reuse. As at
    /// construction, each redrawn identifier carries the version nibble
    /// 4 and the variant bits `10`.
    pub fn reset(&mut self)
        ensures
            final(self).wf(),
            final(self).url == old(self).url,
            final(self).payload@ == Seq::<char>::empty(),
            final(self).next_content_id == 1,
            final(self).batch_id.bits & 0xF000_0000_0000_0000_0000 == 0x4000_0000_0000_0000_0000,
            final(self).batch_id.bits & 0xC000_0000_0000_0000 == 0x8000_0000_0000_0000,
            final(self).dataset_id.bits & 0xF000_0000_0000_0000_0000
                == 0x4000_0000_0000_0000_0000,
            final(self).dataset_id.bits & 0xC000_0000_0000_0000 == 0x8000_0000_0000_0000,
    {
        self.batch_id = Guid::random();
        self.dataset_id = Guid::random();
        clear_str(&mut self.payload);
        self.next_content_id = 1;
    }

    /// The current batch identifier (redrawn by `reset`).
    pub fn get_batch_id(&self) -> (r: Guid)
        ensures
            r == self.batch_id,
    {
        self.batch_id
    }

    /// The current changeset identifier (redrawn by `reset`).
    pub fn get_dataset_id(&self) -> (r: Guid)
        ensures
            r == self.dataset_id,
    {
        self.dataset_id
    }

    /// How many operations this batch holds.
    pub fn get_count(&self) -> (r: u16)
        requires
            self.wf(),
        ensures
            r == self.count(),
    {
        self.next_content_id - 1
    }

    /// Appends the changeset boundary and part headers for the next
    /// operation, content-id included.
    fn append_part_header(&mut self)
        requires
            old(self).wf(),
        ensures
            final(self).payload@ == old(self).payload@ + part_header_text(
                old(self).dataset_id,
                old(self).next_content_id as nat,
            ),
            final(self).url == old(self).url,
            final(self).batch_id == old(self).batch_id,
            final(self).dataset_id == old(self).dataset_id,
            final(self).next_content_id == old(self).next_content_id,
    {
        let ds = self.dataset_id;
        let cid = self.next_content_id;
        append_str(&mut self.payload, "--changeset_");
        ds.append_simple(&mut self.payload);
        append_str(
            &mut self.payload,
            "\nContent-Type: application/http\nContent-Transfer-Encoding:binary\nContent-Id: ",
        );
        append_u64(&mut self.payload, cid as u64);
        append_str(&mut self.payload, "\n\n");
        assert(self.payload@ =~= old(self).payload@ + part_header_text(
            old(self).dataset_id,
            old(self).next_content_id as nat,
        ));
    }

    /// Appends one fully framed create operation for the given entity
    /// set and serialized body, and advances the content-id counter.
    pub fn append_create(&mut self, entity_name: &str, body: &str)
        requires
            old(self).wf(),
            old(self).next_content_id < 0xFFFF,
        ensures
            final(self).wf(),
            final(self).payload@ == old(self).payload@ + create_frame_text(
                old(self).dataset_id,
                old(self).next_content_id as nat,
                old(self).url@,
                entity_name@,
                body@,
            ),
            final(self).url == old(self).url,
            final(self).batch_id == old(self).batch_id,
            final(self).dataset_id == old(self).dataset_id,
            final(self).next_content_id == old(self).next_content_id + 1,
    {
        self.append_part_header();
        let base = self.url;
        append_str(&mut self.payload, "POST ");
        append_str(&mut self.payload, base);
        append_str(&mut self.payload, "api/data/v");
        append_str(&mut self.payload, "9.2");
        append_str(&mut self.payload, "/");
        append_str(&mut self.payload, entity_name);
        append_str(
            &mut self.payload,
            " HTTP/1.1\nContent-Type: application/json;type=entry\n\n",
        );
        append_str(&mut self.payload, body);
        append_str(&mut self.payload, "\n");
        self.next_content_id = self.next_content_id + 1;
        assert(self.payload@ =~= old(self).payload@ + create_frame_text(
            old(self).dataset_id,
            old(self).next_content_id as nat,
            old(self).url@,
            entity_name@,
            body@,
        ));
    }

    /// Appends the targeted request line shared by update, upsert and
    /// delete: the verb is already in place, the record path follows.
    fn append_targeted_path(&mut self, entity_name: &str, entity_id: &Guid)
        ensures
            final(self).payload@ == old(self).payload@ + targeted_url_text(
                old(self).url@,
                entity_name@,
                *entity_id,
            ),
            final(self).url == old(self).url,
            final(self).batch_id == old(self).batch_id,
            final(self).dataset_id == old(self).dataset_id,
            final(self).next_content_id == old(self).next_content_id,
    {
        let base = self.url;
        append_str(&mut self.payload, base);
        append_str(&mut self.payload, "api/data/v");
        append_str(&mut self.payload, "9.2");
        append_str(&mut self.payload, "/");
        append_str(&mut self.payload, entity_name);
        append_str(&mut self.payload, "(");
        entity_id.append_hyphenated(&mut self.payload);
        append_str(&mut self.payload, ")");
        assert(self.payload@ =~= old(self).payload@ + targeted_url_text(
            old(self).url@,
            entity_name@,
            *entity_id,
        ));
    }

    /// Appends one fully framed update operation for the given record
    /// and serialized body, and advances the content-id counter.
    pub fn append_update(&mut self, entity_name: &str, entity_id: &Guid, body: &str)
        requires
            old(self).wf(),
            old(self).next_content_id < 0xFFFF,
        ensures
            final(self).wf(),
            final(self).payload@ == old(self).payload@ + update_frame_text(
                old(self).dataset_id,
                old(self).next_content_id as nat,
                old(self).url@,
                entity_name@,
                *entity_id,
                body@,
            ),
            final(self).url == old(self).url,
            final(self).batch_id == old(self).batch_id,
            final(self).dataset_id == old(self).dataset_id,
            final(self).next_content_id == old(self).next_content_id + 1,
    {
        self.append_part_header();
        append_str(&mut self.payload, "PATCH ");
        self.append_targeted_path(entity_name, entity_id);
        append_str(
            &mut self.payload,
            " HTTP/1.1\nContent-Type: application/json;type=entry\nIf-Match: *\n\n",
        );
        append_str(&mut self.payload, body);
        append_str(&mut self.payload, "\n");
        self.next_content_id = self.next_content_id + 1;
        assert(self.payload@ =~= old(self).payload@ + update_frame_text(
            old(self).dataset_id,
            old(self).next_content_id as nat,
            old(self).url@,
            entity_name@,
            *entity_id,
            body@,
        ));
    }

    /// Appends one fully framed upsert operation for the given record
    /// and serialized body, and advances the content-id counter.
    pub fn append_upsert(&mut self, entity_name: &str, entity_id: &Guid, body: &str)
        requires
            old(self).wf(),
            old(self).next_content_id < 0xFFFF,
        ensures
            final(self).wf(),
            final(self).payload@ == old(self).payload@ + upsert_frame_text(
                old(self).dataset_id,
                old(self).next_content_id as nat,
                old(self).url@,
                entity_name@,
                *entity_id,
                body@,
            ),
            final(self).url == old(self).url,
            final(self).batch_id == old(self).batch_id,
            final(self).dataset_id == old(self).dataset_id,
            final(self).next_content_id == old(self).next_content_id + 1,
    {
        self.append_part_header();
        append_str(&mut self.payload, "PATCH ");
        self.append_targeted_path(entity_name, entity_id);
        append_str(
            &mut self.payload,
            " HTTP/1.1\nContent-Type: application/json;type=entry\n\n",
        );
        append_str(&mut self.payload, body);
        append_str(&mut self.payload, "\n");
        self.next_content_id = self.next_content_id + 1;
        assert(self.payload@ =~= old(self).payload@ + upsert_frame_text(
            old(self).dataset_id,
            old(self).next_content_id as nat,
            old(self).url@,
            entity_name@,
            *entity_id,
            body@,
        ));
    }

    /// Appends one fully framed delete operation for the given record,
    /// and advances the content-id counter.
    pub fn append_delete(&mut self, entity_name: &str, entity_id: &Guid)
        requires
            old(self).wf(),
            old(self).next_content_id < 0xFFFF,
        ensures
            final(self).wf(),
            final(self).payload@ == old(self).payload@ + delete_frame_text(
                old(self).dataset_id,
                old(self).next_content_id as nat,
                old(self).url@,
                entity_name@,
                *entity_id,
            ),
            final(self).url == old(self).url,
            final(self).batch_id == old(self).batch_id,
            final(self).dataset_id == old(self).dataset_id,
            final(self).next_content_id == old(self).next_content_id + 1,
    {
        self.append_part_header();
        append_str(&mut self.payload, "DELETE ");
        self.append_targeted_path(entity_name, entity_id);
        append_str(&mut self.payload, " HTTP/1.1\n\n");
        self.next_content_id = self.next_content_id + 1;
        assert(self.payload@ =~= old(self).payload@ + delete_frame_text(
            old(self).dataset_id,
            old(self).next_content_id as nat,
            old(self).url@,
            entity_name@,
            *entity_id,
        ));
    }

    /// Adds a create request for the given entity. Fails only when the
    /// entity's serialization capability fails, and then changes
    /// nothing.
    pub fn create<E: WriteEntity>(&mut self, entity: &E) -> (r: Result<(), DataverseError>)
        requires
            old(self).wf(),
            old(self).next_content_id < 0xFFFF,
        ensures
            final(self).wf(),
            r is Err ==> *final(self) == *old(self),
            r is Ok ==> (exists|en: Seq<char>, body: Seq<char>|
                final(self).payload@ == old(self).payload@ + create_frame_text(
                    old(self).dataset_id,
                    old(self).next_content_id as nat,
                    old(self).url@,
                    en,
                    body,
                )),
            r is Ok ==> final(self).next_content_id == old(self).next_content_id + 1,
            final(self).url == old(self).url,
            final(self).batch_id == old(self).batch_id,
            final(self).dataset_id == old(self).dataset_id,
    {
        let reference = entity.get_reference();
        match entity.to_json() {
            Ok(body) => {
                self.append_create(reference.entity_name, body.as_str());
                Ok(())
            },
            Err(e) => Err(e),
        }
    }

    /// Adds an update request for the given entity. Fails only when the
    /// entity's serialization capability fails, and then changes
    /// nothing.
    pub fn update<E: WriteEntity>(&mut self, entity: &E) -> (r: Result<(), DataverseError>)
        requires
            old(self).wf(),
            old(self).next_content_id < 0xFFFF,
        ensures
            final(self).wf(),
            r is Err ==> *final(self) == *old(self),
            r is Ok ==> (exists|en: Seq<char>, id: Guid, body: Seq<char>|
                final(self).payload@ == old(self).payload@ + update_frame_text(
                    old(self).dataset_id,
                    old(self).next_content_id as nat,
                    old(self).url@,
                    en,
                    id,
                    body,
                )),
            r is Ok ==> final(self).next_content_id == old(self).next_content_id + 1,
            final(self).url == old(self).url,
            final(self).batch_id == old(self).batch_id,
            final(self).dataset_id == old(self).dataset_id,
    {
        let reference = entity.get_reference();
        match entity.to_json() {
            Ok(body) => {
                self.append_update(reference.entity_name, &reference.entity_id, body.as_str());
                Ok(())
            },
            Err(e) => Err(e),
        }
    }

    /// Adds an upsert request for the given entity. Fails only when the
    /// entity's serialization capability fails, and then changes
    /// nothing.
    pub fn upsert<E: WriteEntity>(&mut self, entity: &E) -> (r: Result<(), DataverseError>)
        requires
            old(self).wf(),
            old(self).next_content_id < 0xFFFF,
        ensures
            final(self).wf(),
            r is Err ==> *final(self) == *old(self),
            r is Ok ==> (exists|en: Seq<char>, id: Guid, body: Seq<char>|
                final(self).payload@ == old(self).payload@ + upsert_frame_text(
                    old(self).dataset_id,
                    old(self).next_content_id as nat,
                    old(self).url@,
                    en,
                    id,
                    body,
                )),
            r is Ok ==> final(self).next_content_id == old(self).next_content_id + 1,
            final(self).url == old(self).url,
            final(self).batch_id == old(self).batch_id,
            final(self).dataset_id == old(self).dataset_id,
    {
        let reference = entity.get_reference();
        match entity.to_json() {
            Ok(body) => {
                self.append_upsert(reference.entity_name, &reference.entity_id, body.as_str());
                Ok(())
            },
            Err(e) => Err(e),
        }
    }

    /// Adds a delete request for the record the given value references.
    /// Deletion carries no body, so no serialization is involved and
    /// the operation always succeeds.
    pub fn delete<E: Reference>(&mut self, entity: &E) -> (r: Result<(), DataverseError>)
        requires
            old(self).wf(),
            old(self).next_content_id < 0xFFFF,
        ensures
            final(self).wf(),
            r is Ok,
            exists|en: Seq<char>, id: Guid|
                final(self).payload@ == old(self).payload@ + delete_frame_text(
                    old(self).dataset_id,
                    old(self).next_content_id as nat,
                    old(self).url@,
                    en,
                    id,
                ),
            final(self).next_content_id == old(self).next_content_id + 1,
            final(self).url == old(self).url,
            final(self).batch_id == old(self).batch_id,
            final(self).dataset_id == old(self).dataset_id,
    {
        let reference = entity.get_reference();
        self.append_delete(reference.entity_name, &reference.entity_id);
        Ok(())
    }

    /// Renders the whole batch body: the accumulated parts wrapped in
    /// the changeset terminator and the batch boundary pair. Rendering
    /// does not consume the batch and can be repeated.
    pub fn to_string(&self) -> (r: String)
        ensures
            r@ == batch_body_text(self.batch_id, self.dataset_id, self.payload@),
    {
        let mut out = String::new();
        append_str(&mut out, "--batch_");
        self.batch_id.append_simple(&mut out);
        append_str(&mut out, "\nContent-Type: multipart/mixed; boundary=changeset_");
        self.dataset_id.append_simple(&mut out);
        append_str(&mut out, "\n\n");
        append_str(&mut out, self.payload.as_str());
        append_str(&mut out, "--changeset_");
        self.dataset_id.append_simple(&mut out);
        append_str(&mut out, "--\n--batch_");
        self.batch_id.append_simple(&mut out);
        append_str(&mut out, "--");
        assert(out@ =~= batch_body_text(self.batch_id, self.dataset_id, self.payload@));
        out
    }
}

} // verus!
