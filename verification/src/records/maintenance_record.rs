use vstd::prelude::*;
use crate::record::Record;
use crate::wire::{
    lemma_text_parse, lemma_u64_parse, put_text, put_u64, text_parse, text_wire, u64_parse,
    u64_wire, Reader,
};

verus! {

/// Maintenance of a piece of equipment, planned or done.
///
/// `cost` is in millionths of the currency unit.
#[derive(Debug, PartialEq, Eq)]
pub struct MaintenanceRecord {
    pub id: u64,
    pub slaughterhouse_id: u64,
    pub equipment_name: String,
    pub maintenance_type: String,
    pub cost: u64,
    pub date: u64,
    pub next_maintenance_date: u64,
    pub performed_by: String,
    pub status: String,
    pub notes: String,
}

/// What a `MaintenanceRecord` holds, as mathematical values.
pub struct MaintenanceRecordView {
    pub id: u64,
    pub slaughterhouse_id: u64,
    pub equipment_name: Seq<char>,
    pub maintenance_type: Seq<char>,
    pub cost: u64,
    pub date: u64,
    pub next_maintenance_date: u64,
    pub performed_by: Seq<char>,
    pub status: Seq<char>,
    pub notes: Seq<char>,
}

impl View for MaintenanceRecord {
    type V = MaintenanceRecordView;

    open spec fn view(&self) -> MaintenanceRecordView {
        MaintenanceRecordView {
            id: self.id,
            slaughterhouse_id: self.slaughterhouse_id,
            equipment_name: self.equipment_name@,
            maintenance_type: self.maintenance_type@,
            cost: self.cost,
            date: self.date,
            next_maintenance_date: self.next_maintenance_date,
            performed_by: self.performed_by@,
            status: self.status@,
            notes: self.notes@,
        }
    }
}

/// A `MaintenanceRecord` is written as its fields in the order of their declaration.
impl Record for MaintenanceRecord {
    open spec fn id_of(v: MaintenanceRecordView) -> u64 {
        v.id
    }

    open spec fn encoding(v: MaintenanceRecordView) -> Seq<u8> {
        u64_wire(v.id)
            + (u64_wire(v.slaughterhouse_id)
            + (text_wire(v.equipment_name)
            + (text_wire(v.maintenance_type)
            + (u64_wire(v.cost)
            + (u64_wire(v.date)
            + (u64_wire(v.next_maintenance_date)
            + (text_wire(v.performed_by)
            + (text_wire(v.status)
            + text_wire(v.notes)))))))))
    }

    open spec fn decoding(bytes: Seq<u8>) -> Option<MaintenanceRecordView> {
        match u64_parse(bytes) {
            Some((id, s1)) => match u64_parse(s1) {
                Some((slaughterhouse_id, s2)) => match text_parse(s2) {
                    Some((equipment_name, s3)) => match text_parse(s3) {
                        Some((maintenance_type, s4)) => match u64_parse(s4) {
                            Some((cost, s5)) => match u64_parse(s5) {
                                Some((date, s6)) => match u64_parse(s6) {
                                    Some((next_maintenance_date, s7)) => match text_parse(s7) {
                                        Some((performed_by, s8)) => match text_parse(s8) {
                                            Some((status, s9)) => match text_parse(s9) {
                                                Some((notes, s10)) => if s10.len() == 0 {
                                                    Some(
                                                        MaintenanceRecordView {
                                                            id,
                                                            slaughterhouse_id,
                                                            equipment_name,
                                                            maintenance_type,
                                                            cost,
                                                            date,
                                                            next_maintenance_date,
                                                            performed_by,
                                                            status,
                                                            notes,
                                                        },
                                                    )
                                                } else {
                                                    None
                                                },
                                                None => None,
                                            },
                                            None => None,
                                        },
                                        None => None,
                                    },
                                    None => None,
                                },
                                None => None,
                            },
                            None => None,
                        },
                        None => None,
                    },
                    None => None,
                },
                None => None,
            },
            None => None,
        }
    }

    proof fn lemma_round_trip(v: MaintenanceRecordView) {
        let t10 = Seq::<u8>::empty();
        let t9 = text_wire(v.notes) + t10;
        let t8 = text_wire(v.status) + t9;
        let t7 = text_wire(v.performed_by) + t8;
        let t6 = u64_wire(v.next_maintenance_date) + t7;
        let t5 = u64_wire(v.date) + t6;
        let t4 = u64_wire(v.cost) + t5;
        let t3 = text_wire(v.maintenance_type) + t4;
        let t2 = text_wire(v.equipment_name) + t3;
        let t1 = u64_wire(v.slaughterhouse_id) + t2;
        assert(t9 =~= text_wire(v.notes));
        lemma_u64_parse(v.id, t1);
        lemma_u64_parse(v.slaughterhouse_id, t2);
        lemma_text_parse(v.equipment_name, t3);
        lemma_text_parse(v.maintenance_type, t4);
        lemma_u64_parse(v.cost, t5);
        lemma_u64_parse(v.date, t6);
        lemma_u64_parse(v.next_maintenance_date, t7);
        lemma_text_parse(v.performed_by, t8);
        lemma_text_parse(v.status, t9);
        lemma_text_parse(v.notes, t10);
    }

    fn id(&self) -> (id: u64) {
        self.id
    }

    fn encode(&self) -> (bytes: Vec<u8>) {
        let mut buf: Vec<u8> = Vec::new();
        put_u64(&mut buf, self.id);
        put_u64(&mut buf, self.slaughterhouse_id);
        put_text(&mut buf, &self.equipment_name);
        put_text(&mut buf, &self.maintenance_type);
        put_u64(&mut buf, self.cost);
        put_u64(&mut buf, self.date);
        put_u64(&mut buf, self.next_maintenance_date);
        put_text(&mut buf, &self.performed_by);
        put_text(&mut buf, &self.status);
        put_text(&mut buf, &self.notes);
        assert(buf@ =~= Self::encoding(self@));
        buf
    }

    fn decode(bytes: &[u8]) -> (r: Option<Self>) {
        let mut rd = Reader::new(bytes);
        let id = rd.u64()?;
        let slaughterhouse_id = rd.u64()?;
        let equipment_name = rd.text()?;
        let maintenance_type = rd.text()?;
        let cost = rd.u64()?;
        let date = rd.u64()?;
        let next_maintenance_date = rd.u64()?;
        let performed_by = rd.text()?;
        let status = rd.text()?;
        let notes = rd.text()?;
        if !rd.is_done() {
            return None;
        }
        Some(
            MaintenanceRecord {
                id,
                slaughterhouse_id,
                equipment_name,
                maintenance_type,
                cost,
                date,
                next_maintenance_date,
                performed_by,
                status,
                notes,
            },
        )
    }

    fn duplicate(&self) -> (copy: Self) {
        MaintenanceRecord {
            id: self.id,
            slaughterhouse_id: self.slaughterhouse_id,
            equipment_name: self.equipment_name.clone(),
            maintenance_type: self.maintenance_type.clone(),
            cost: self.cost,
            date: self.date,
            next_maintenance_date: self.next_maintenance_date,
            performed_by: self.performed_by.clone(),
            status: self.status.clone(),
            notes: self.notes.clone(),
        }
    }
}

} // verus!
