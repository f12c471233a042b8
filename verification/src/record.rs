//! The records that leave the pipeline.

use vstd::prelude::*;
use serde_json::Value;
use crate::clock::Timestamp;
use crate::clock::utc_now;
use crate::page::Page;
use crate::referrer::Referrer;
use crate::utm::UtmParam;
use crate::visitor::Visitor;

verus! {

/// `serde_json::Value`: the payload of an event, carried through as it came.
#[verifier::external_type_specification]
#[verifier::external_body]
pub struct ExValue(Value);

/// One visit of a page, with what is known at its start or at its end.
#[derive(Debug, Clone)]
pub struct Visit {
    pub time: Timestamp,
    pub project: i64,
    pub session: i64,
    pub visitor: Visitor,
    pub page: Page,
    pub utm_param: Option<UtmParam>,
    pub referrer: Option<Referrer>,
    pub duration: Option<i32>,
    /// The reported distance, as the bit pattern of a 64-bit float.
    pub distance: Option<u64>,
}

impl Visit {
    /// The visit that was recorded at `time`, without duration or distance.
    pub fn at(
        time: Timestamp,
        project_id: i64,
        session: i64,
        visitor: Visitor,
        page: Page,
        utm_param: Option<UtmParam>,
        referrer: Option<Referrer>,
    ) -> (val: Self)
        ensures
            val == (Visit {
                time,
                project: project_id,
                session,
                visitor,
                page,
                utm_param,
                referrer,
                duration: None,
                distance: None,
            }),
    {
        Visit {
            time,
            project: project_id,
            session,
            visitor,
            page,
            utm_param,
            referrer,
            duration: None,
            distance: None,
        }
    }

    /// The visit that is recorded now, without duration or distance.
    pub fn new(
        project_id: i64,
        session: i64,
        visitor: Visitor,
        page: Page,
        utm_param: Option<UtmParam>,
        referrer: Option<Referrer>,
    ) -> (val: Self)
        ensures
            val == (Visit {
                time: val.time,
                project: project_id,
                session,
                visitor,
                page,
                utm_param,
                referrer,
                duration: None,
                distance: None,
            }),
    {
        Visit::at(utc_now(), project_id, session, visitor, page, utm_param, referrer)
    }
}

/// A custom event on a page. The payload is carried through as it came.
#[derive(Debug)]
pub struct Event {
    pub time: Timestamp,
    pub project: i64,
    pub session: i64,
    pub visitor: Visitor,
    pub page: Page,
    pub name: String,
    pub data: Value,
}

impl Event {
    /// The event that was recorded at `time`.
    pub fn at(
        time: Timestamp,
        project_id: i64,
        session: i64,
        visitor: Visitor,
        page: Page,
        name: String,
        data: Value,
    ) -> (val: Self)
        ensures
            val == (Event { time, project: project_id, session, visitor, page, name, data }),
    {
        Event { time, project: project_id, session, visitor, page, name, data }
    }

    /// The event that is recorded now.
    pub fn new(
        project_id: i64,
        session: i64,
        visitor: Visitor,
        page: Page,
        name: String,
        data: Value,
    ) -> (val: Self)
        ensures
            val == (Event {
                time: val.time,
                project: project_id,
                session,
                visitor,
                page,
                name,
                data,
            }),
    {
        Event::at(utc_now(), project_id, session, visitor, page, name, data)
    }
}

} // verus!
