use vstd::prelude::*;
use crate::record::Record;
use crate::wire::{
    lemma_text_parse, lemma_u64_parse, lemma_u8_parse, put_text, put_u64, put_u8, text_parse,
    text_wire, u64_parse, u64_wire, u8_parse, u8_wire, Reader,
};

verus! {

/// A supplier of animals or goods.
#[derive(Debug, PartialEq, Eq)]
pub struct Supplier {
    pub id: u64,
    pub name: String,
    pub contact: String,
    pub email: String,
    pub supplier_type: String,
    pub rating: u8,
    pub active_since: u64,
    pub last_supply_date: u64,
}

/// What a `Supplier` holds, as mathematical values.
pub struct SupplierView {
    pub id: u64,
    pub name: Seq<char>,
    pub contact: Seq<char>,
    pub email: Seq<char>,
    pub supplier_type: Seq<char>,
    pub rating: u8,
    pub active_since: u64,
    pub last_supply_date: u64,
}

impl View for Supplier {
    type V = SupplierView;

    open spec fn view(&self) -> SupplierView {
        SupplierView {
            id: self.id,
            name: self.name@,
            contact: self.contact@,
            email: self.email@,
            supplier_type: self.supplier_type@,
            rating: self.rating,
            active_since: self.active_since,
            last_supply_date: self.last_supply_date,
        }
    }
}

/// A `Supplier` is written as its fields in the order of their declaration.
impl Record for Supplier {
    open spec fn id_of(v: SupplierView) -> u64 {
        v.id
    }

    open spec fn encoding(v: SupplierView) -> Seq<u8> {
        u64_wire(v.id)
            + (text_wire(v.name)
            + (text_wire(v.contact)
            + (text_wire(v.email)
            + (text_wire(v.supplier_type)
            + (u8_wire(v.rating)
            + (u64_wire(v.active_since)
            + u64_wire(v.last_supply_date)))))))
    }

    open spec fn decoding(bytes: Seq<u8>) -> Option<SupplierView> {
        match u64_parse(bytes) {
            Some((id, s1)) => match text_parse(s1) {
                Some((name, s2)) => match text_parse(s2) {
                    Some((contact, s3)) => match text_parse(s3) {
                        Some((email, s4)) => match text_parse(s4) {
                            Some((supplier_type, s5)) => match u8_parse(s5) {
                                Some((rating, s6)) => match u64_parse(s6) {
                                    Some((active_since, s7)) => match u64_parse(s7) {
                                        Some((last_supply_date, s8)) => if s8.len() == 0 {
                                            Some(
                                                SupplierView {
                                                    id,
                                                    name,
                                                    contact,
                                                    email,
                                                    supplier_type,
                                                    rating,
                                                    active_since,
                                                    last_supply_date,
                                                },
                                            )
                                        } else {
                                            None
                                        },
                                        None => None,
                                    },
                                    None => None,
                                },
                                None => None,
                            },
                            None => None,
                        },
                        None => None,
                    },
                    None => None,
                },
                None => None,
            },
            None => None,
        }
    }

    proof fn lemma_round_trip(v: SupplierView) {
        let t8 = Seq::<u8>::empty();
        let t7 = u64_wire(v.last_supply_date) + t8;
        let t6 = u64_wire(v.active_since) + t7;
        let t5 = u8_wire(v.rating) + t6;
        let t4 = text_wire(v.supplier_type) + t5;
        let t3 = text_wire(v.email) + t4;
        let t2 = text_wire(v.contact) + t3;
        let t1 = text_wire(v.name) + t2;
        assert(t7 =~= u64_wire(v.last_supply_date));
        lemma_u64_parse(v.id, t1);
        lemma_text_parse(v.name, t2);
        lemma_text_parse(v.contact, t3);
        lemma_text_parse(v.email, t4);
        lemma_text_parse(v.supplier_type, t5);
        lemma_u8_parse(v.rating, t6);
        lemma_u64_parse(v.active_since, t7);
        lemma_u64_parse(v.last_supply_date, t8);
    }

    fn id(&self) -> (id: u64) {
        self.id
    }

    fn encode(&self) -> (bytes: Vec<u8>) {
        let mut buf: Vec<u8> = Vec::new();
        put_u64(&mut buf, self.id);
        put_text(&mut buf, &self.name);
        put_text(&mut buf, &self.contact);
        put_text(&mut buf, &self.email);
        put_text(&mut buf, &self.supplier_type);
        put_u8(&mut buf, self.rating);
        put_u64(&mut buf, self.active_since);
        put_u64(&mut buf, self.last_supply_date);
        assert(buf@ =~= Self::encoding(self@));
        buf
    }

    fn decode(bytes: &[u8]) -> (r: Option<Self>) {
        let mut rd = Reader::new(bytes);
        let id = rd.u64()?;
        let name = rd.text()?;
        let contact = rd.text()?;
        let email = rd.text()?;
        let supplier_type = rd.text()?;
        let rating = rd.u8()?;
        let active_since = rd.u64()?;
        let last_supply_date = rd.u64()?;
        if !rd.is_done() {
            return None;
        }
        Some(
            Supplier {
                id,
                name,
                contact,
                email,
                supplier_type,
                rating,
                active_since,
                last_supply_date,
            },
        )
    }

    fn duplicate(&self) -> (copy: Self) {
        Supplier {
            id: self.id,
            name: self.name.clone(),
            contact: self.contact.clone(),
            email: self.email.clone(),
            supplier_type: self.supplier_type.clone(),
            rating: self.rating,
            active_since: self.active_since,
            last_supply_date: self.last_supply_date,
        }
    }
}

} // verus!
