//! The data sets of the Public BI benchmark.

use vstd::prelude::*;

use crate::chars::{self, chars_of, eq_ignore_ascii_case};
use crate::error::{VortexError, VortexResult};
use crate::text::{join2, join3};

verus! {

/// A data set.
#[derive(Copy, Clone, Debug, Eq, PartialEq, Structural, Hash)]
pub enum PBIDataset {
    Arade,
    Bimbo,
    CMSprovider,
    CityMaxCapita,
    CommonGovernment,
    Corporations,
    Eixo,
    Euro2016,
    Food,
    Generico,
    HashTags,
    Hatred,
    IGlocations1,
    IGlocations2,
    IUBLibrary,
    MLB,
    MedPayment1,
    MedPayment2,
    Medicare1,
    Medicare2,
    Medicare3,
    Motos,
    MulheresMil,
    NYC,
    PanCreactomy1,
    PanCreactomy2,
    Physicians,
    Provider,
    RealEstate1,
    RealEstate2,
    Redfin1,
    Redfin2,
    Redfin3,
    Redfin4,
    Rentabilidad,
    Romance,
    SalariesFrance,
    TableroSistemaPenal,
    Taxpayer,
    Telco,
    TrainsUK1,
    TrainsUK2,
    USCensus,
    Uberlandia,
    Wins,
    YaleLanguages,
}

/// The data sets, in the order in which names are looked up.
pub open spec fn variants() -> Seq<PBIDataset> {
    seq![
        PBIDataset::Arade,
        PBIDataset::Bimbo,
        PBIDataset::CMSprovider,
        PBIDataset::CityMaxCapita,
        PBIDataset::CommonGovernment,
        PBIDataset::Corporations,
        PBIDataset::Eixo,
        PBIDataset::Euro2016,
        PBIDataset::Food,
        PBIDataset::Generico,
        PBIDataset::HashTags,
        PBIDataset::Hatred,
        PBIDataset::IGlocations1,
        PBIDataset::IGlocations2,
        PBIDataset::IUBLibrary,
        PBIDataset::MLB,
        PBIDataset::MedPayment1,
        PBIDataset::MedPayment2,
        PBIDataset::Medicare1,
        PBIDataset::Medicare2,
        PBIDataset::Medicare3,
        PBIDataset::Motos,
        PBIDataset::MulheresMil,
        PBIDataset::NYC,
        PBIDataset::PanCreactomy1,
        PBIDataset::PanCreactomy2,
        PBIDataset::Physicians,
        PBIDataset::Provider,
        PBIDataset::RealEstate1,
        PBIDataset::RealEstate2,
        PBIDataset::Redfin1,
        PBIDataset::Redfin2,
        PBIDataset::Redfin3,
        PBIDataset::Redfin4,
        PBIDataset::Rentabilidad,
        PBIDataset::Romance,
        PBIDataset::SalariesFrance,
        PBIDataset::TableroSistemaPenal,
        PBIDataset::Taxpayer,
        PBIDataset::Telco,
        PBIDataset::TrainsUK1,
        PBIDataset::TrainsUK2,
        PBIDataset::USCensus,
        PBIDataset::Uberlandia,
        PBIDataset::Wins,
        PBIDataset::YaleLanguages,
    ]
}

/// The first data set from the `n`-th on whose name is `s`, whatever the case of its letters.
pub open spec fn named(s: Seq<char>, n: nat) -> Option<PBIDataset>
    decreases variants().len() - n,
{
    if n >= variants().len() {
        None
    } else if chars::same_ignoring_case(variants()[n as int].label(), s) {
        Some(variants()[n as int])
    } else {
        named(s, n + 1)
    }
}

/// What is said of a name that is no data set's.
pub open spec fn invalid_variant(s: Seq<char>) -> Seq<char> {
    "invalid variant: "@ + s
}

impl PBIDataset {
    /// The name of the data set.
    pub open spec fn label(self) -> Seq<char> {
        match self {
            PBIDataset::Arade => "Arade"@,
            PBIDataset::Bimbo => "Bimbo"@,
            PBIDataset::CMSprovider => "CMSprovider"@,
            PBIDataset::CityMaxCapita => "CityMaxCapita"@,
            PBIDataset::CommonGovernment => "CommonGovernment"@,
            PBIDataset::Corporations => "Corporations"@,
            PBIDataset::Eixo => "Eixo"@,
            PBIDataset::Euro2016 => "Euro2016"@,
            PBIDataset::Food => "Food"@,
            PBIDataset::Generico => "Generico"@,
            PBIDataset::HashTags => "HashTags"@,
            PBIDataset::Hatred => "Hatred"@,
            PBIDataset::IGlocations1 => "IGlocations1"@,
            PBIDataset::IGlocations2 => "IGlocations2"@,
            PBIDataset::IUBLibrary => "IUBLibrary"@,
            PBIDataset::MLB => "MLB"@,
            PBIDataset::MedPayment1 => "MedPayment1"@,
            PBIDataset::MedPayment2 => "MedPayment2"@,
            PBIDataset::Medicare1 => "Medicare1"@,
            PBIDataset::Medicare2 => "Medicare2"@,
            PBIDataset::Medicare3 => "Medicare3"@,
            PBIDataset::Motos => "Motos"@,
            PBIDataset::MulheresMil => "MulheresMil"@,
            PBIDataset::NYC => "NYC"@,
            PBIDataset::PanCreactomy1 => "PanCreactomy1"@,
            PBIDataset::PanCreactomy2 => "PanCreactomy2"@,
            PBIDataset::Physicians => "Physicians"@,
            PBIDataset::Provider => "Provider"@,
            PBIDataset::RealEstate1 => "RealEstate1"@,
            PBIDataset::RealEstate2 => "RealEstate2"@,
            PBIDataset::Redfin1 => "Redfin1"@,
            PBIDataset::Redfin2 => "Redfin2"@,
            PBIDataset::Redfin3 => "Redfin3"@,
            PBIDataset::Redfin4 => "Redfin4"@,
            PBIDataset::Rentabilidad => "Rentabilidad"@,
            PBIDataset::Romance => "Romance"@,
            PBIDataset::SalariesFrance => "SalariesFrance"@,
            PBIDataset::TableroSistemaPenal => "TableroSistemaPenal"@,
            PBIDataset::Taxpayer => "Taxpayer"@,
            PBIDataset::Telco => "Telco"@,
            PBIDataset::TrainsUK1 => "TrainsUK1"@,
            PBIDataset::TrainsUK2 => "TrainsUK2"@,
            PBIDataset::USCensus => "USCensus"@,
            PBIDataset::Uberlandia => "Uberlandia"@,
            PBIDataset::Wins => "Wins"@,
            PBIDataset::YaleLanguages => "YaleLanguages"@,
        }
    }

    /// The name of the data set.
    pub fn name(&self) -> (out: &'static str)
        ensures
            out@ == self.label(),
    {
        match self {
            PBIDataset::Arade => "Arade",
            PBIDataset::Bimbo => "Bimbo",
            PBIDataset::CMSprovider => "CMSprovider",
            PBIDataset::CityMaxCapita => "CityMaxCapita",
            PBIDataset::CommonGovernment => "CommonGovernment",
            PBIDataset::Corporations => "Corporations",
            PBIDataset::Eixo => "Eixo",
            PBIDataset::Euro2016 => "Euro2016",
            PBIDataset::Food => "Food",
            PBIDataset::Generico => "Generico",
            PBIDataset::HashTags => "HashTags",
            PBIDataset::Hatred => "Hatred",
            PBIDataset::IGlocations1 => "IGlocations1",
            PBIDataset::IGlocations2 => "IGlocations2",
            PBIDataset::IUBLibrary => "IUBLibrary",
            PBIDataset::MLB => "MLB",
            PBIDataset::MedPayment1 => "MedPayment1",
            PBIDataset::MedPayment2 => "MedPayment2",
            PBIDataset::Medicare1 => "Medicare1",
            PBIDataset::Medicare2 => "Medicare2",
            PBIDataset::Medicare3 => "Medicare3",
            PBIDataset::Motos => "Motos",
            PBIDataset::MulheresMil => "MulheresMil",
            PBIDataset::NYC => "NYC",
            PBIDataset::PanCreactomy1 => "PanCreactomy1",
            PBIDataset::PanCreactomy2 => "PanCreactomy2",
            PBIDataset::Physicians => "Physicians",
            PBIDataset::Provider => "Provider",
            PBIDataset::RealEstate1 => "RealEstate1",
            PBIDataset::RealEstate2 => "RealEstate2",
            PBIDataset::Redfin1 => "Redfin1",
            PBIDataset::Redfin2 => "Redfin2",
            PBIDataset::Redfin3 => "Redfin3",
            PBIDataset::Redfin4 => "Redfin4",
            PBIDataset::Rentabilidad => "Rentabilidad",
            PBIDataset::Romance => "Romance",
            PBIDataset::SalariesFrance => "SalariesFrance",
            PBIDataset::TableroSistemaPenal => "TableroSistemaPenal",
            PBIDataset::Taxpayer => "Taxpayer",
            PBIDataset::Telco => "Telco",
            PBIDataset::TrainsUK1 => "TrainsUK1",
            PBIDataset::TrainsUK2 => "TrainsUK2",
            PBIDataset::USCensus => "USCensus",
            PBIDataset::Uberlandia => "Uberlandia",
            PBIDataset::Wins => "Wins",
            PBIDataset::YaleLanguages => "YaleLanguages",
        }
    }

    /// The data sets.
    pub fn value_variants() -> (out: Vec<PBIDataset>)
        ensures
            out@ == variants(),
    {
        let out: Vec<PBIDataset> = vec![
            PBIDataset::Arade,
            PBIDataset::Bimbo,
            PBIDataset::CMSprovider,
            PBIDataset::CityMaxCapita,
            PBIDataset::CommonGovernment,
            PBIDataset::Corporations,
            PBIDataset::Eixo,
            PBIDataset::Euro2016,
            PBIDataset::Food,
            PBIDataset::Generico,
            PBIDataset::HashTags,
            PBIDataset::Hatred,
            PBIDataset::IGlocations1,
            PBIDataset::IGlocations2,
            PBIDataset::IUBLibrary,
            PBIDataset::MLB,
            PBIDataset::MedPayment1,
            PBIDataset::MedPayment2,
            PBIDataset::Medicare1,
            PBIDataset::Medicare2,
            PBIDataset::Medicare3,
            PBIDataset::Motos,
            PBIDataset::MulheresMil,
            PBIDataset::NYC,
            PBIDataset::PanCreactomy1,
            PBIDataset::PanCreactomy2,
            PBIDataset::Physicians,
            PBIDataset::Provider,
            PBIDataset::RealEstate1,
            PBIDataset::RealEstate2,
            PBIDataset::Redfin1,
            PBIDataset::Redfin2,
            PBIDataset::Redfin3,
            PBIDataset::Redfin4,
            PBIDataset::Rentabilidad,
            PBIDataset::Romance,
            PBIDataset::SalariesFrance,
            PBIDataset::TableroSistemaPenal,
            PBIDataset::Taxpayer,
            PBIDataset::Telco,
            PBIDataset::TrainsUK1,
            PBIDataset::TrainsUK2,
            PBIDataset::USCensus,
            PBIDataset::Uberlandia,
            PBIDataset::Wins,
            PBIDataset::YaleLanguages,
        ];
        assert(out@ =~= variants());
        out
    }

    /// The data set of a name.
    pub fn lookup(s: &str) -> (out: Option<PBIDataset>)
        ensures
            out == named(s@, 0),
    {
        let wanted = chars_of(s);
        let all = PBIDataset::value_variants();
        let mut index: usize = 0;
        while index < all.len()
            invariant
                index <= all@.len(),
                all@ == variants(),
                wanted@ == s@,
                named(s@, 0) == named(s@, index as nat),
            decreases all@.len() - index,
        {
            if eq_ignore_ascii_case(&chars_of(all[index].name()), &wanted) {
                return Some(all[index]);
            }
            index = index + 1;
        }
        None
    }

    /// The data set of a name, whatever the case of its letters.
    pub fn from_str(s: &str) -> (out: VortexResult<PBIDataset>)
        ensures
            match out {
                Ok(dataset) => named(s@, 0) == Some(dataset),
                Err(error) => named(s@, 0) is None && error@ == "invalid PBI dataset '"@ + s@
                    + "': "@ + invalid_variant(s@),
            },
    {
        match PBIDataset::lookup(s) {
            Some(dataset) => Ok(dataset),
            None => {
                let mut message = join3("invalid PBI dataset '", s, "': ");
                message.append(join2("invalid variant: ", s).as_str());
                Err(VortexError::new(message))
            },
        }
    }
}

/// A data set is found by a name, if at all, that is its own but for the case of its letters.
pub proof fn names_find_their_dataset(s: Seq<char>, n: nat)
    ensures
        named(s, n) matches Some(dataset) ==> chars::same_ignoring_case(dataset.label(), s),
        named(s, n) is None ==> forall|i: int|
            n <= i < variants().len() ==> !chars::same_ignoring_case(
                (#[trigger] variants()[i]).label(),
                s,
            ),
    decreases variants().len() - n,
{
    if n < variants().len() {
        names_find_their_dataset(s, n + 1);
    }
}

} // verus!
