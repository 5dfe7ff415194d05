use vstd::prelude::*;
use crate::record::Record;
use crate::wire::{
    lemma_text_parse, lemma_u64_parse, put_text, put_u64, text_parse, text_wire, u64_parse,
    u64_wire, Reader,
};

verus! {

/// A slaughterhouse: the root that the other records refer to.
///
/// `capacity` is the number of animals it can handle in a day.
#[derive(Debug, PartialEq, Eq)]
pub struct Slaughterhouse {
    pub id: u64,
    pub name: String,
    pub location: String,
    pub contact: String,
    pub email: String,
    pub capacity: u64,
    pub created_at: u64,
}

/// What a `Slaughterhouse` holds, as mathematical values.
pub struct SlaughterhouseView {
    pub id: u64,
    pub name: Seq<char>,
    pub location: Seq<char>,
    pub contact: Seq<char>,
    pub email: Seq<char>,
    pub capacity: u64,
    pub created_at: u64,
}

impl View for Slaughterhouse {
    type V = SlaughterhouseView;

    open spec fn view(&self) -> SlaughterhouseView {
        SlaughterhouseView {
            id: self.id,
            name: self.name@,
            location: self.location@,
            contact: self.contact@,
            email: self.email@,
            capacity: self.capacity,
            created_at: self.created_at,
        }
    }
}

/// A `Slaughterhouse` is written as its fields in the order of their declaration.
impl Record for Slaughterhouse {
    open spec fn id_of(v: SlaughterhouseView) -> u64 {
        v.id
    }

    open spec fn encoding(v: SlaughterhouseView) -> Seq<u8> {
        u64_wire(v.id)
            + (text_wire(v.name)
            + (text_wire(v.location)
            + (text_wire(v.contact)
            + (text_wire(v.email)
            + (u64_wire(v.capacity)
            + u64_wire(v.created_at))))))
    }

    open spec fn decoding(bytes: Seq<u8>) -> Option<SlaughterhouseView> {
        match u64_parse(bytes) {
            Some((id, s1)) => match text_parse(s1) {
                Some((name, s2)) => match text_parse(s2) {
                    Some((location, s3)) => match text_parse(s3) {
                        Some((contact, s4)) => match text_parse(s4) {
                            Some((email, s5)) => match u64_parse(s5) {
                                Some((capacity, s6)) => match u64_parse(s6) {
                                    Some((created_at, s7)) => if s7.len() == 0 {
                                        Some(
                                            SlaughterhouseView {
                                                id,
                                                name,
                                                location,
                                                contact,
                                                email,
                                                capacity,
                                                created_at,
                                            },
                                        )
                                    } else {
                                        None
                                    },
                                    None => None,
                                },
                                None => None,
                            },
                            None => None,
                        },
                        None => None,
                    },
                    None => None,
                },
                None => None,
            },
            None => None,
        }
    }

    proof fn lemma_round_trip(v: SlaughterhouseView) {
        let t7 = Seq::<u8>::empty();
        let t6 = u64_wire(v.created_at) + t7;
        let t5 = u64_wire(v.capacity) + t6;
        let t4 = text_wire(v.email) + t5;
        let t3 = text_wire(v.contact) + t4;
        let t2 = text_wire(v.location) + t3;
        let t1 = text_wire(v.name) + t2;
        assert(t6 =~= u64_wire(v.created_at));
        lemma_u64_parse(v.id, t1);
        lemma_text_parse(v.name, t2);
        lemma_text_parse(v.location, t3);
        lemma_text_parse(v.contact, t4);
        lemma_text_parse(v.email, t5);
        lemma_u64_parse(v.capacity, t6);
        lemma_u64_parse(v.created_at, t7);
    }

    fn id(&self) -> (id: u64) {
        self.id
    }

    fn encode(&self) -> (bytes: Vec<u8>) {
        let mut buf: Vec<u8> = Vec::new();
        put_u64(&mut buf, self.id);
        put_text(&mut buf, &self.name);
        put_text(&mut buf, &self.location);
        put_text(&mut buf, &self.contact);
        put_text(&mut buf, &self.email);
        put_u64(&mut buf, self.capacity);
        put_u64(&mut buf, self.created_at);
        assert(buf@ =~= Self::encoding(self@));
        buf
    }

    fn decode(bytes: &[u8]) -> (r: Option<Self>) {
        let mut rd = Reader::new(bytes);
        let id = rd.u64()?;
        let name = rd.text()?;
        let location = rd.text()?;
        let contact = rd.text()?;
        let email = rd.text()?;
        let capacity = rd.u64()?;
        let created_at = rd.u64()?;
        if !rd.is_done() {
            return None;
        }
        Some(
            Slaughterhouse {
                id,
                name,
                location,
                contact,
                email,
                capacity,
                created_at,
            },
        )
    }

    fn duplicate(&self) -> (copy: Self) {
        Slaughterhouse {
            id: self.id,
            name: self.name.clone(),
            location: self.location.clone(),
            contact: self.contact.clone(),
            email: self.email.clone(),
            capacity: self.capacity,
            created_at: self.created_at,
        }
    }
}

} // verus!
