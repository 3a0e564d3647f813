use vstd::prelude::*;

use crate::codec::plain_text;

verus! {

/// The fixed, compiled-in list of permissible drone model names.
pub open spec fn model_catalog() -> Seq<Seq<char>> {
    seq![
        "T-1000"@,
        "Quick-90"@,
        "Analyzer"@,
        "T-800"@,
        "Cyberdine-10"@,
        "Class-A"@,
        "Engineer"@,
        "Temp-BOT"@,
        "T-1001"@,
        "Acrobat-K"@,
    ]
}

/// The fixed list of location captions a generated drone can carry.
pub open spec fn caption_catalog() -> Seq<Seq<char>> {
    seq![
        "Kat 1 - Kuzey Batı Kanadı"@,
        "Zemin Kat - Merkez"@,
        "Kat 3 - Doğu Kanadı"@,
        "Çatı Katı - Helikopter Pisti Merkez"@,
    ]
}

/// The model catalog as owned strings, in catalog order.
pub fn drone_models() -> (r: Vec<String>)
    ensures
        r@.len() == model_catalog().len(),
        forall|i: int| 0 <= i < r@.len() ==> r@[i]@ == model_catalog()[i],
{
    let mut models: Vec<String> = Vec::new();
    models.push(String::from_str("T-1000"));
    models.push(String::from_str("Quick-90"));
    models.push(String::from_str("Analyzer"));
    models.push(String::from_str("T-800"));
    models.push(String::from_str("Cyberdine-10"));
    models.push(String::from_str("Class-A"));
    models.push(String::from_str("Engineer"));
    models.push(String::from_str("Temp-BOT"));
    models.push(String::from_str("T-1001"));
    models.push(String::from_str("Acrobat-K"));
    proof {
        assert(models@.map_values(|m: String| m@) =~= model_catalog());
    }
    models
}

/// The caption catalog as owned strings, in catalog order.
pub fn location_captions() -> (r: Vec<String>)
    ensures
        r@.len() == caption_catalog().len(),
        forall|i: int| 0 <= i < r@.len() ==> r@[i]@ == caption_catalog()[i],
{
    let mut captions: Vec<String> = Vec::new();
    captions.push(String::from_str("Kat 1 - Kuzey Batı Kanadı"));
    captions.push(String::from_str("Zemin Kat - Merkez"));
    captions.push(String::from_str("Kat 3 - Doğu Kanadı"));
    captions.push(String::from_str("Çatı Katı - Helikopter Pisti Merkez"));
    proof {
        assert(captions@.map_values(|m: String| m@) =~= caption_catalog());
    }
    captions
}

/// Every model name fits a record field: no comma, no line break, and no
/// opening parenthesis.
pub proof fn lemma_model_catalog_wf()
    ensures
        forall|mi: int|
            0 <= mi < model_catalog().len() ==> plain_text(#[trigger] model_catalog()[mi]),
        forall|mi: int, i: int|
            0 <= mi < model_catalog().len() && 0 <= i < model_catalog()[mi].len()
                ==> #[trigger] model_catalog()[mi][i] != '(',
{
    reveal_strlit("T-1000");
    reveal_strlit("Quick-90");
    reveal_strlit("Analyzer");
    reveal_strlit("T-800");
    reveal_strlit("Cyberdine-10");
    reveal_strlit("Class-A");
    reveal_strlit("Engineer");
    reveal_strlit("Temp-BOT");
    reveal_strlit("T-1001");
    reveal_strlit("Acrobat-K");
}

/// Every caption fits a record field: no comma and no line break.
pub proof fn lemma_caption_catalog_wf()
    ensures
        forall|ci: int|
            0 <= ci < caption_catalog().len() ==> plain_text(#[trigger] caption_catalog()[ci]),
{
    reveal_strlit("Kat 1 - Kuzey Batı Kanadı");
    reveal_strlit("Zemin Kat - Merkez");
    reveal_strlit("Kat 3 - Doğu Kanadı");
    reveal_strlit("Çatı Katı - Helikopter Pisti Merkez");
}

} // verus!
