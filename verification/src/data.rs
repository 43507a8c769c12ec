//! Data tables of the SoC information driver: PMIC model names and the image-version slots
//! exported to DebugFS, plus the shape of the SoC id table.

use vstd::prelude::*;

verus! {

/// Number of slots in the PMIC model table.
pub const PMIC_MODELS_LEN: usize = 84;

/// One entry of a SoC id table: a numeric SoC id and its marketing name.
pub struct SocId {
    /// SoC id as reported in the `id` field of the SoC information block.
    pub id: u32,
    /// Name of the SoC.
    pub name: &'static str,
}

/// Name of PMIC model `i`, if the table knows it (`PMIC_MODELS[i]`).
pub open spec fn pmic_model_spec(i: int) -> Option<&'static str> {
    if i == 0 {
        Some("Unknown PMIC model")
    } else if i == 1 {
        Some("PM8941")
    } else if i == 2 {
        Some("PM8841")
    } else if i == 3 {
        Some("PM8019")
    } else if i == 4 {
        Some("PM8226")
    } else if i == 5 {
        Some("PM8110")
    } else if i == 6 {
        Some("PMA8084")
    } else if i == 7 {
        Some("PMI8962")
    } else if i == 8 {
        Some("PMD9635")
    } else if i == 9 {
        Some("PM8994")
    } else if i == 10 {
        Some("PMI8994")
    } else if i == 11 {
        Some("PM8916")
    } else if i == 12 {
        Some("PM8004")
    } else if i == 13 {
        Some("PM8909/PM8058")
    } else if i == 14 {
        Some("PM8028")
    } else if i == 15 {
        Some("PM8901")
    } else if i == 16 {
        Some("PM8950/PM8027")
    } else if i == 17 {
        Some("PMI8950/ISL9519")
    } else if i == 18 {
        Some("PMK8001/PM8921")
    } else if i == 19 {
        Some("PMI8996/PM8018")
    } else if i == 20 {
        Some("PM8998/PM8015")
    } else if i == 21 {
        Some("PMI8998/PM8014")
    } else if i == 22 {
        Some("PM8821")
    } else if i == 23 {
        Some("PM8038")
    } else if i == 24 {
        Some("PM8005/PM8922")
    } else if i == 25 {
        Some("PM8917/PM8937")
    } else if i == 26 {
        Some("PM660L")
    } else if i == 27 {
        Some("PM660")
    } else if i == 30 {
        Some("PM8150")
    } else if i == 31 {
        Some("PM8150L")
    } else if i == 32 {
        Some("PM8150B")
    } else if i == 33 {
        Some("PMK8002")
    } else if i == 36 {
        Some("PM8009")
    } else if i == 37 {
        Some("PMI632")
    } else if i == 38 {
        Some("PM8150C")
    } else if i == 40 {
        Some("PM6150")
    } else if i == 41 {
        Some("SMB2351")
    } else if i == 44 {
        Some("PM8008")
    } else if i == 45 {
        Some("PM6125")
    } else if i == 46 {
        Some("PM7250B")
    } else if i == 47 {
        Some("PMK8350")
    } else if i == 48 {
        Some("PM8350")
    } else if i == 49 {
        Some("PM8350C")
    } else if i == 50 {
        Some("PM8350B")
    } else if i == 51 {
        Some("PMR735A")
    } else if i == 52 {
        Some("PMR735B")
    } else if i == 54 {
        Some("PM6350")
    } else if i == 55 {
        Some("PM4125")
    } else if i == 58 {
        Some("PM8450")
    } else if i == 65 {
        Some("PM8010")
    } else if i == 69 {
        Some("PM8550VS")
    } else if i == 70 {
        Some("PM8550VE")
    } else if i == 71 {
        Some("PM8550B")
    } else if i == 72 {
        Some("PMR735D")
    } else if i == 73 {
        Some("PM8550")
    } else if i == 74 {
        Some("PMK8550")
    } else if i == 82 {
        Some("PMC8380")
    } else if i == 83 {
        Some("SMB2360")
    } else {
        None
    }
}

/// `PMIC_MODELS.get(i)`, flattened: the name of PMIC model `i`, or `None` for an index past the
/// table or a slot the table leaves empty.
pub fn pmic_model(i: usize) -> (r: Option<&'static str>)
    ensures
        r == pmic_model_spec(i as int),
        r is Some ==> i < PMIC_MODELS_LEN,
{
    match i {
        0 => Some("Unknown PMIC model"),
        1 => Some("PM8941"),
        2 => Some("PM8841"),
        3 => Some("PM8019"),
        4 => Some("PM8226"),
        5 => Some("PM8110"),
        6 => Some("PMA8084"),
        7 => Some("PMI8962"),
        8 => Some("PMD9635"),
        9 => Some("PM8994"),
        10 => Some("PMI8994"),
        11 => Some("PM8916"),
        12 => Some("PM8004"),
        13 => Some("PM8909/PM8058"),
        14 => Some("PM8028"),
        15 => Some("PM8901"),
        16 => Some("PM8950/PM8027"),
        17 => Some("PMI8950/ISL9519"),
        18 => Some("PMK8001/PM8921"),
        19 => Some("PMI8996/PM8018"),
        20 => Some("PM8998/PM8015"),
        21 => Some("PMI8998/PM8014"),
        22 => Some("PM8821"),
        23 => Some("PM8038"),
        24 => Some("PM8005/PM8922"),
        25 => Some("PM8917/PM8937"),
        26 => Some("PM660L"),
        27 => Some("PM660"),
        30 => Some("PM8150"),
        31 => Some("PM8150L"),
        32 => Some("PM8150B"),
        33 => Some("PMK8002"),
        36 => Some("PM8009"),
        37 => Some("PMI632"),
        38 => Some("PM8150C"),
        40 => Some("PM6150"),
        41 => Some("SMB2351"),
        44 => Some("PM8008"),
        45 => Some("PM6125"),
        46 => Some("PM7250B"),
        47 => Some("PMK8350"),
        48 => Some("PM8350"),
        49 => Some("PM8350C"),
        50 => Some("PM8350B"),
        51 => Some("PMR735A"),
        52 => Some("PMR735B"),
        54 => Some("PM6350"),
        55 => Some("PM4125"),
        58 => Some("PM8450"),
        65 => Some("PM8010"),
        69 => Some("PM8550VS"),
        70 => Some("PM8550VE"),
        71 => Some("PM8550B"),
        72 => Some("PMR735D"),
        73 => Some("PM8550"),
        74 => Some("PMK8550"),
        82 => Some("PMC8380"),
        83 => Some("SMB2360"),
        _ => None,
    }
}

/// Number of entries of the image-name table.
pub const IMAGE_NAMES_LEN: usize = 13;

/// Entry `i` of `IMAGE_NAMES`: the DebugFS directory name of an image and its slot in the
/// image-version table.
pub open spec fn image_name_spec(i: int) -> (&'static str, usize) {
    if i == 0 {
        ("adsp", 12)
    } else if i == 1 {
        ("apps", 10)
    } else if i == 2 {
        ("boot", 0)
    } else if i == 3 {
        ("cnss", 13)
    } else if i == 4 {
        ("mpss", 11)
    } else if i == 5 {
        ("rpm", 3)
    } else if i == 6 {
        ("tz", 1)
    } else if i == 7 {
        ("video", 14)
    } else if i == 8 {
        ("dsps", 15)
    } else if i == 9 {
        ("cdsp", 16)
    } else if i == 10 {
        ("cdsp1", 19)
    } else if i == 11 {
        ("gpdsp", 20)
    } else {
        ("gpdsp1", 21)
    }
}

/// Entry `i` of `IMAGE_NAMES`.
pub fn image_name(i: usize) -> (r: (&'static str, usize))
    requires
        i < IMAGE_NAMES_LEN,
    ensures
        r == image_name_spec(i as int),
{
    match i {
        0 => ("adsp", 12),
        1 => ("apps", 10),
        2 => ("boot", 0),
        3 => ("cnss", 13),
        4 => ("mpss", 11),
        5 => ("rpm", 3),
        6 => ("tz", 1),
        7 => ("video", 14),
        8 => ("dsps", 15),
        9 => ("cdsp", 16),
        10 => ("cdsp1", 19),
        11 => ("gpdsp", 20),
        _ => ("gpdsp1", 21),
    }
}

} // verus!
