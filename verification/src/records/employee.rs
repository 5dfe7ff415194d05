use vstd::prelude::*;
use crate::record::Record;
use crate::wire::{
    lemma_text_parse, lemma_u64_parse, put_text, put_u64, text_parse, text_wire, u64_parse,
    u64_wire, Reader,
};

verus! {

/// A member of the staff of a slaughterhouse.
#[derive(Debug, PartialEq, Eq)]
pub struct Employee {
    pub id: u64,
    pub slaughterhouse_id: u64,
    pub name: String,
    pub role: String,
    pub certification: String,
    pub hire_date: u64,
    pub contact: String,
    pub status: String,
}

/// What a `Employee` holds, as mathematical values.
pub struct EmployeeView {
    pub id: u64,
    pub slaughterhouse_id: u64,
    pub name: Seq<char>,
    pub role: Seq<char>,
    pub certification: Seq<char>,
    pub hire_date: u64,
    pub contact: Seq<char>,
    pub status: Seq<char>,
}

impl View for Employee {
    type V = EmployeeView;

    open spec fn view(&self) -> EmployeeView {
        EmployeeView {
            id: self.id,
            slaughterhouse_id: self.slaughterhouse_id,
            name: self.name@,
            role: self.role@,
            certification: self.certification@,
            hire_date: self.hire_date,
            contact: self.contact@,
            status: self.status@,
        }
    }
}

/// A `Employee` is written as its fields in the order of their declaration.
impl Record for Employee {
    open spec fn id_of(v: EmployeeView) -> u64 {
        v.id
    }

    open spec fn encoding(v: EmployeeView) -> Seq<u8> {
        u64_wire(v.id)
            + (u64_wire(v.slaughterhouse_id)
            + (text_wire(v.name)
            + (text_wire(v.role)
            + (text_wire(v.certification)
            + (u64_wire(v.hire_date)
            + (text_wire(v.contact)
            + text_wire(v.status)))))))
    }

    open spec fn decoding(bytes: Seq<u8>) -> Option<EmployeeView> {
        match u64_parse(bytes) {
            Some((id, s1)) => match u64_parse(s1) {
                Some((slaughterhouse_id, s2)) => match text_parse(s2) {
                    Some((name, s3)) => match text_parse(s3) {
                        Some((role, s4)) => match text_parse(s4) {
                            Some((certification, s5)) => match u64_parse(s5) {
                                Some((hire_date, s6)) => match text_parse(s6) {
                                    Some((contact, s7)) => match text_parse(s7) {
                                        Some((status, s8)) => if s8.len() == 0 {
                                            Some(
                                                EmployeeView {
                                                    id,
                                                    slaughterhouse_id,
                                                    name,
                                                    role,
                                                    certification,
                                                    hire_date,
                                                    contact,
                                                    status,
                                                },
                                            )
                                        } else {
                                            None
                                        },
                                        None => None,
                                    },
                                    None => None,
                                },
                                None => None,
                            },
                            None => None,
                        },
                        None => None,
                    },
                    None => None,
                },
                None => None,
            },
            None => None,
        }
    }

    proof fn lemma_round_trip(v: EmployeeView) {
        let t8 = Seq::<u8>::empty();
        let t7 = text_wire(v.status) + t8;
        let t6 = text_wire(v.contact) + t7;
        let t5 = u64_wire(v.hire_date) + t6;
        let t4 = text_wire(v.certification) + t5;
        let t3 = text_wire(v.role) + t4;
        let t2 = text_wire(v.name) + t3;
        let t1 = u64_wire(v.slaughterhouse_id) + t2;
        assert(t7 =~= text_wire(v.status));
        lemma_u64_parse(v.id, t1);
        lemma_u64_parse(v.slaughterhouse_id, t2);
        lemma_text_parse(v.name, t3);
        lemma_text_parse(v.role, t4);
        lemma_text_parse(v.certification, t5);
        lemma_u64_parse(v.hire_date, t6);
        lemma_text_parse(v.contact, t7);
        lemma_text_parse(v.status, t8);
    }

    fn id(&self) -> (id: u64) {
        self.id
    }

    fn encode(&self) -> (bytes: Vec<u8>) {
        let mut buf: Vec<u8> = Vec::new();
        put_u64(&mut buf, self.id);
        put_u64(&mut buf, self.slaughterhouse_id);
        put_text(&mut buf, &self.name);
        put_text(&mut buf, &self.role);
        put_text(&mut buf, &self.certification);
        put_u64(&mut buf, self.hire_date);
        put_text(&mut buf, &self.contact);
        put_text(&mut buf, &self.status);
        assert(buf@ =~= Self::encoding(self@));
        buf
    }

    fn decode(bytes: &[u8]) -> (r: Option<Self>) {
        let mut rd = Reader::new(bytes);
        let id = rd.u64()?;
        let slaughterhouse_id = rd.u64()?;
        let name = rd.text()?;
        let role = rd.text()?;
        let certification = rd.text()?;
        let hire_date = rd.u64()?;
        let contact = rd.text()?;
        let status = rd.text()?;
        if !rd.is_done() {
            return None;
        }
        Some(
            Employee {
                id,
                slaughterhouse_id,
                name,
                role,
                certification,
                hire_date,
                contact,
                status,
            },
        )
    }

    fn duplicate(&self) -> (copy: Self) {
        Employee {
            id: self.id,
            slaughterhouse_id: self.slaughterhouse_id,
            name: self.name.clone(),
            role: self.role.clone(),
            certification: self.certification.clone(),
            hire_date: self.hire_date,
            contact: self.contact.clone(),
            status: self.status.clone(),
        }
    }
}

} // verus!
