//! The descriptor of a received instance and the canonical destination
//! path derived from it: patient, study, series and instance levels.

use vstd::prelude::*;
use crate::decimal::{decimal, law_pad_keeps_digits, padded, parse_u32, parsed_u32, zero_padded};

verus! {

/// The identifying tags of one instance, as the trimmed text of each tag.
pub struct TagTexts {
    pub patient_id: String,
    pub patient_name: String,
    pub patient_birth_date: String,
    pub study_description: String,
    pub accession_number: String,
    pub study_date: String,
    pub series_number: String,
    pub series_description: String,
    pub instance_number: String,
    pub sop_instance_uid: String,
}

/// The identifying tags of one instance, with the two numeric tags parsed.
pub struct DicomInfo {
    pub patient_id: String,
    pub patient_name: String,
    pub patient_birth_date: String,
    pub study_description: String,
    pub accession_number: String,
    pub study_date: String,
    pub series_number: u32,
    pub series_description: String,
    pub instance_number: u32,
    pub sop_instance_uid: String,
}

/// Why the tag texts of an instance do not make a descriptor.
#[derive(Debug, Clone, Copy, PartialEq, Eq, Structural)]
pub enum InfoError {
    /// `SeriesNumber` is not the text of a 32-bit unsigned integer.
    BadSeriesNumber,
    /// `InstanceNumber` is not the text of a 32-bit unsigned integer.
    BadInstanceNumber,
}

/// Width of the zero-padded series number.
pub const SERIES_WIDTH: usize = 5;

/// Width of the zero-padded instance number.
pub const INSTANCE_WIDTH: usize = 4;

/// `a-b-c`.
pub open spec fn dashed3(a: Seq<char>, b: Seq<char>, c: Seq<char>) -> Seq<char> {
    a + seq!['-'] + b + seq!['-'] + c
}

pub open spec fn dcm_suffix() -> Seq<char> {
    seq!['.', 'd', 'c', 'm']
}

/// `<PatientID>-<PatientName>-<PatientBirthDate>`.
pub open spec fn root_dir_of(
    patient_id: Seq<char>,
    patient_name: Seq<char>,
    patient_birth_date: Seq<char>,
) -> Seq<char> {
    dashed3(patient_id, patient_name, patient_birth_date)
}

/// `<StudyDescription>-<AccessionNumber>-<StudyDate>`.
pub open spec fn study_dir_of(
    study_description: Seq<char>,
    accession_number: Seq<char>,
    study_date: Seq<char>,
) -> Seq<char> {
    dashed3(study_description, accession_number, study_date)
}

/// `<SeriesNumber padded to 5>-<SeriesDescription>`.
pub open spec fn series_dir_of(series_number: nat, series_description: Seq<char>) -> Seq<char> {
    padded(series_number, 5) + seq!['-'] + series_description
}

/// `<InstanceNumber padded to 4>-<SOPInstanceUID>.dcm`.
pub open spec fn file_name_of(instance_number: nat, sop_instance_uid: Seq<char>) -> Seq<char> {
    padded(instance_number, 4) + seq!['-'] + sop_instance_uid + dcm_suffix()
}

/// The destination is a function of the ten tags alone: two descriptors
/// that agree on them have the same directories and file name.
pub proof fn law_path_determined_by_tags(a: DicomInfo, b: DicomInfo)
    requires
        a.patient_id@ == b.patient_id@,
        a.patient_name@ == b.patient_name@,
        a.patient_birth_date@ == b.patient_birth_date@,
        a.study_description@ == b.study_description@,
        a.accession_number@ == b.accession_number@,
        a.study_date@ == b.study_date@,
        a.series_number == b.series_number,
        a.series_description@ == b.series_description@,
        a.instance_number == b.instance_number,
        a.sop_instance_uid@ == b.sop_instance_uid@,
    ensures
        a.root_dir() == b.root_dir(),
        a.study_dir() == b.study_dir(),
        a.series_dir() == b.series_dir(),
        a.file_name() == b.file_name(),
{
}

/// The series directory starts with the series number padded to at least
/// five characters, the file name with the instance number padded to at
/// least four; neither number loses a digit.
pub proof fn law_number_widths(info: DicomInfo)
    ensures
        padded(info.series_number as nat, 5).len() >= 5,
        padded(info.instance_number as nat, 4).len() >= 4,
        info.series_dir().subrange(0, padded(info.series_number as nat, 5).len() as int) == padded(
            info.series_number as nat,
            5,
        ),
        info.file_name().subrange(0, padded(info.instance_number as nat, 4).len() as int)
            == padded(info.instance_number as nat, 4),
        padded(info.series_number as nat, 5).subrange(
            padded(info.series_number as nat, 5).len() - decimal(info.series_number as nat).len(),
            padded(info.series_number as nat, 5).len() as int,
        ) == decimal(info.series_number as nat),
        padded(info.instance_number as nat, 4).subrange(
            padded(info.instance_number as nat, 4).len() - decimal(info.instance_number as nat).len(),
            padded(info.instance_number as nat, 4).len() as int,
        ) == decimal(info.instance_number as nat),
{
    law_pad_keeps_digits(info.series_number as nat, 5);
    law_pad_keeps_digits(info.instance_number as nat, 4);
    let s = padded(info.series_number as nat, 5);
    let f = padded(info.instance_number as nat, 4);
    assert(info.series_dir().subrange(0, s.len() as int) =~= s);
    assert(info.file_name().subrange(0, f.len() as int) =~= f);
}

fn dash_join3(a: &String, b: &String, c: &String) -> (r: String)
    ensures
        r@ == dashed3(a@, b@, c@),
{
    let mut out = a.clone();
    proof {
        reveal_strlit("-");
    }
    out.append("-");
    out.append(b.as_str());
    out.append("-");
    out.append(c.as_str());
    assert(out@ =~= dashed3(a@, b@, c@));
    out
}

impl DicomInfo {
    pub open spec fn root_dir(&self) -> Seq<char> {
        root_dir_of(self.patient_id@, self.patient_name@, self.patient_birth_date@)
    }

    pub open spec fn study_dir(&self) -> Seq<char> {
        study_dir_of(self.study_description@, self.accession_number@, self.study_date@)
    }

    pub open spec fn series_dir(&self) -> Seq<char> {
        series_dir_of(self.series_number as nat, self.series_description@)
    }

    pub open spec fn file_name(&self) -> Seq<char> {
        file_name_of(self.instance_number as nat, self.sop_instance_uid@)
    }

    /// The descriptor of an instance from the text of its ten tags; the two
    /// numeric tags must be the decimal text of a 32-bit unsigned integer.
    pub fn from_tags(t: TagTexts) -> (r: Result<DicomInfo, InfoError>)
        ensures
            parsed_u32(t.series_number@) is None ==> r == Err::<DicomInfo, InfoError>(
                InfoError::BadSeriesNumber,
            ),
            parsed_u32(t.series_number@) is Some && parsed_u32(t.instance_number@) is None ==> r
                == Err::<DicomInfo, InfoError>(InfoError::BadInstanceNumber),
            r is Ok <==> (parsed_u32(t.series_number@) is Some && parsed_u32(
                t.instance_number@,
            ) is Some),
            r matches Ok(info) ==> {
                &&& info.patient_id == t.patient_id
                &&& info.patient_name == t.patient_name
                &&& info.patient_birth_date == t.patient_birth_date
                &&& info.study_description == t.study_description
                &&& info.accession_number == t.accession_number
                &&& info.study_date == t.study_date
                &&& Some(info.series_number) == parsed_u32(t.series_number@)
                &&& info.series_description == t.series_description
                &&& Some(info.instance_number) == parsed_u32(t.instance_number@)
                &&& info.sop_instance_uid == t.sop_instance_uid
            },
    {
        let series_number = match parse_u32(t.series_number.as_str()) {
            Some(n) => n,
            None => {
                return Err(InfoError::BadSeriesNumber);
            },
        };
        let instance_number = match parse_u32(t.instance_number.as_str()) {
            Some(n) => n,
            None => {
                return Err(InfoError::BadInstanceNumber);
            },
        };
        Ok(DicomInfo {
            patient_id: t.patient_id,
            patient_name: t.patient_name,
            patient_birth_date: t.patient_birth_date,
            study_description: t.study_description,
            accession_number: t.accession_number,
            study_date: t.study_date,
            series_number,
            series_description: t.series_description,
            instance_number,
            sop_instance_uid: t.sop_instance_uid,
        })
    }

    /// The destination of the instance under the data root: the three
    /// directory levels (patient, study, series) and the file name.
    pub fn to_path_parts(&self) -> (r: (Vec<String>, String))
        ensures
            r.0@.len() == 3,
            r.0@[0]@ == self.root_dir(),
            r.0@[1]@ == self.study_dir(),
            r.0@[2]@ == self.series_dir(),
            r.1@ == self.file_name(),
    {
        let root = dash_join3(&self.patient_id, &self.patient_name, &self.patient_birth_date);
        let study = dash_join3(&self.study_description, &self.accession_number, &self.study_date);
        proof {
            reveal_strlit("-");
            reveal_strlit(".dcm");
        }
        let mut series = zero_padded(self.series_number, SERIES_WIDTH);
        series.append("-");
        series.append(self.series_description.as_str());
        let mut file = zero_padded(self.instance_number, INSTANCE_WIDTH);
        file.append("-");
        file.append(self.sop_instance_uid.as_str());
        file.append(".dcm");
        assert(series@ =~= self.series_dir());
        assert(file@ =~= self.file_name());
        let mut dirs: Vec<String> = Vec::new();
        dirs.push(root);
        dirs.push(study);
        dirs.push(series);
        (dirs, file)
    }
}

} // verus!
