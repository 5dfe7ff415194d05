use vstd::prelude::*;
use crate::record::Record;
use crate::wire::{
    bool_parse, bool_wire, i32_parse, i32_wire, lemma_bool_parse, lemma_i32_parse,
    lemma_text_parse, lemma_u32_parse, lemma_u64_parse, put_bool, put_i32, put_text, put_u32,
    put_u64, text_parse, text_wire, u32_parse, u32_wire, u64_parse, u64_wire, Reader,
};

verus! {

/// The inspection of one animal.
///
/// `temperature` is in thousandths of a degree and `ph_level` in thousandths
/// of a pH unit.
#[derive(Debug, PartialEq, Eq)]
pub struct QualityInspection {
    pub id: u64,
    pub animal_id: u64,
    pub inspector_name: String,
    pub inspection_date: u64,
    pub temperature: i32,
    pub ph_level: u32,
    pub visual_inspection: String,
    pub passed: bool,
    pub notes: String,
}

/// What a `QualityInspection` holds, as mathematical values.
pub struct QualityInspectionView {
    pub id: u64,
    pub animal_id: u64,
    pub inspector_name: Seq<char>,
    pub inspection_date: u64,
    pub temperature: i32,
    pub ph_level: u32,
    pub visual_inspection: Seq<char>,
    pub passed: bool,
    pub notes: Seq<char>,
}

impl View for QualityInspection {
    type V = QualityInspectionView;

    open spec fn view(&self) -> QualityInspectionView {
        QualityInspectionView {
            id: self.id,
            animal_id: self.animal_id,
            inspector_name: self.inspector_name@,
            inspection_date: self.inspection_date,
            temperature: self.temperature,
            ph_level: self.ph_level,
            visual_inspection: self.visual_inspection@,
            passed: self.passed,
            notes: self.notes@,
        }
    }
}

/// A `QualityInspection` is written as its fields in the order of their declaration.
impl Record for QualityInspection {
    open spec fn id_of(v: QualityInspectionView) -> u64 {
        v.id
    }

    open spec fn encoding(v: QualityInspectionView) -> Seq<u8> {
        u64_wire(v.id)
            + (u64_wire(v.animal_id)
            + (text_wire(v.inspector_name)
            + (u64_wire(v.inspection_date)
            + (i32_wire(v.temperature)
            + (u32_wire(v.ph_level)
            + (text_wire(v.visual_inspection)
            + (bool_wire(v.passed)
            + text_wire(v.notes))))))))
    }

    open spec fn decoding(bytes: Seq<u8>) -> Option<QualityInspectionView> {
        match u64_parse(bytes) {
            Some((id, s1)) => match u64_parse(s1) {
                Some((animal_id, s2)) => match text_parse(s2) {
                    Some((inspector_name, s3)) => match u64_parse(s3) {
                        Some((inspection_date, s4)) => match i32_parse(s4) {
                            Some((temperature, s5)) => match u32_parse(s5) {
                                Some((ph_level, s6)) => match text_parse(s6) {
                                    Some((visual_inspection, s7)) => match bool_parse(s7) {
                                        Some((passed, s8)) => match text_parse(s8) {
                                            Some((notes, s9)) => if s9.len() == 0 {
                                                Some(
                                                    QualityInspectionView {
                                                        id,
                                                        animal_id,
                                                        inspector_name,
                                                        inspection_date,
                                                        temperature,
                                                        ph_level,
                                                        visual_inspection,
                                                        passed,
                                                        notes,
                                                    },
                                                )
                                            } else {
                                                None
                                            },
                                            None => None,
                                        },
                                        None => None,
                                    },
                                    None => None,
                                },
                                None => None,
                            },
                            None => None,
                        },
                        None => None,
                    },
                    None => None,
                },
                None => None,
            },
            None => None,
        }
    }

    proof fn lemma_round_trip(v: QualityInspectionView) {
        let t9 = Seq::<u8>::empty();
        let t8 = text_wire(v.notes) + t9;
        let t7 = bool_wire(v.passed) + t8;
        let t6 = text_wire(v.visual_inspection) + t7;
        let t5 = u32_wire(v.ph_level) + t6;
        let t4 = i32_wire(v.temperature) + t5;
        let t3 = u64_wire(v.inspection_date) + t4;
        let t2 = text_wire(v.inspector_name) + t3;
        let t1 = u64_wire(v.animal_id) + t2;
        assert(t8 =~= text_wire(v.notes));
        lemma_u64_parse(v.id, t1);
        lemma_u64_parse(v.animal_id, t2);
        lemma_text_parse(v.inspector_name, t3);
        lemma_u64_parse(v.inspection_date, t4);
        lemma_i32_parse(v.temperature, t5);
        lemma_u32_parse(v.ph_level, t6);
        lemma_text_parse(v.visual_inspection, t7);
        lemma_bool_parse(v.passed, t8);
        lemma_text_parse(v.notes, t9);
    }

    fn id(&self) -> (id: u64) {
        self.id
    }

    fn encode(&self) -> (bytes: Vec<u8>) {
        let mut buf: Vec<u8> = Vec::new();
        put_u64(&mut buf, self.id);
        put_u64(&mut buf, self.animal_id);
        put_text(&mut buf, &self.inspector_name);
        put_u64(&mut buf, self.inspection_date);
        put_i32(&mut buf, self.temperature);
        put_u32(&mut buf, self.ph_level);
        put_text(&mut buf, &self.visual_inspection);
        put_bool(&mut buf, self.passed);
        put_text(&mut buf, &self.notes);
        assert(buf@ =~= Self::encoding(self@));
        buf
    }

    fn decode(bytes: &[u8]) -> (r: Option<Self>) {
        let mut rd = Reader::new(bytes);
        let id = rd.u64()?;
        let animal_id = rd.u64()?;
        let inspector_name = rd.text()?;
        let inspection_date = rd.u64()?;
        let temperature = rd.i32()?;
        let ph_level = rd.u32()?;
        let visual_inspection = rd.text()?;
        let passed = rd.bool()?;
        let notes = rd.text()?;
        if !rd.is_done() {
            return None;
        }
        Some(
            QualityInspection {
                id,
                animal_id,
                inspector_name,
                inspection_date,
                temperature,
                ph_level,
                visual_inspection,
                passed,
                notes,
            },
        )
    }

    fn duplicate(&self) -> (copy: Self) {
        QualityInspection {
            id: self.id,
            animal_id: self.animal_id,
            inspector_name: self.inspector_name.clone(),
            inspection_date: self.inspection_date,
            temperature: self.temperature,
            ph_level: self.ph_level,
            visual_inspection: self.visual_inspection.clone(),
            passed: self.passed,
            notes: self.notes.clone(),
        }
    }
}

} // verus!
