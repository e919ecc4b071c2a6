//! The embedded locality directory: a fixed, read-only table mapping each
//! known locality code to its display name and coordinates.
//!
//! A code has the shape `ZWL` followed by six decimal digits, so the table
//! is keyed by the numeric part.  Coordinates are carried in microdegrees
//! (millionths of a decimal degree), which represents the source data
//! exactly without floating point.  The table exists twice, once as the
//! specification and once as executable lookup arms, and the lookup is
//! proved to agree with the specification entry by entry.

use vstd::prelude::*;

verus! {

/// The model of a lookup result: the canonical code literal and display
/// name abstracted to their character sequences, with the latitude and
/// longitude in microdegrees.
pub open spec fn entry_option_model(r: Option<(&'static str, &'static str, i64, i64)>) -> Option<
    (Seq<char>, Seq<char>, i64, i64),
> {
    match r {
        Some(t) => Some((t.0@, t.1@, t.2, t.3)),
        None => None,
    }
}

/// Directory entries with numeric codes 1036 through 2503.
pub open spec fn entry_spec_a(n: int) -> Option<(Seq<char>, Seq<char>, i64, i64)> {
    if n == 1036 {
        Some(("ZWL001036"@, "Delhi NCR Shalimar Bagh"@, 28720312i64, 77164849i64))
    } else if n == 1038 {
        Some(("ZWL001038"@, "Raipur Mowa, Raipur"@, 21272467i64, 81671100i64))
    } else if n == 1039 {
        Some(("ZWL001039"@, "Kolkata Santoshpur"@, 22502107i64, 88388897i64))
    } else if n == 1041 {
        Some(("ZWL001041"@, "Nagpur Manish Nagar"@, 21091663i64, 79072458i64))
    } else if n == 1058 {
        Some(("ZWL001058"@, "Mumbai Ghatkopar West, Mumbai"@, 19096740i64, 72904562i64))
    } else if n == 1073 {
        Some(("ZWL001073"@, "Delhi NCR Sector 10, Gurgaon"@, 28436077i64, 76996757i64))
    } else if n == 1077 {
        Some(("ZWL001077"@, "Jalandhar Paragpur, Jalandhar"@, 31285004i64, 75648457i64))
    } else if n == 1089 {
        Some(("ZWL001089"@, "Mumbai Borivali West"@, 19229714i64, 72839710i64))
    } else if n == 1112 {
        Some(("ZWL001112"@, "Delhi NCR Mayur Vihar Phase 1"@, 28609961i64, 77296133i64))
    } else if n == 1141 {
        Some(("ZWL001141"@, "Chennai Navallur"@, 12841923i64, 80209025i64))
    } else if n == 1156 {
        Some(("ZWL001156"@, "Bengaluru Koramangala"@, 12933756i64, 77625825i64))
    } else if n == 1163 {
        Some(("ZWL001163"@, "Ludhiana Model Town, Ludhiana"@, 30881060i64, 75875309i64))
    } else if n == 1164 {
        Some(("ZWL001164"@, "Mumbai Panvel"@, 18998845i64, 73108933i64))
    } else if n == 1186 {
        Some(("ZWL001186"@, "Delhi NCR South Extension I"@, 28578498i64, 77223627i64))
    } else if n == 1196 {
        Some(("ZWL001196"@, "Bengaluru HSR Layout"@, 12908482i64, 77641773i64))
    } else if n == 1210 {
        Some(("ZWL001210"@, "Chennai Alwarpet"@, 13032366i64, 80257625i64))
    } else if n == 1267 {
        Some(("ZWL001267"@, "Delhi NCR Hauz Khas"@, 28551132i64, 77211401i64))
    } else if n == 1273 {
        Some(("ZWL001273"@, "Bengaluru Indiranagar"@, 12952636i64, 77653059i64))
    } else if n == 1274 {
        Some(("ZWL001274"@, "Mumbai Badlapur, Mumbai"@, 19174156i64, 73225767i64))
    } else if n == 1279 {
        Some(("ZWL001279"@, "Coimbatore Sitra, and Singanallur, Coimbatore"@, 11042569i64, 77054996i64))
    } else if n == 1319 {
        Some(("ZWL001319"@, "Delhi NCR Ashok Vihar, Delhi"@, 28684453i64, 77174418i64))
    } else if n == 1334 {
        Some(("ZWL001334"@, "Mumbai Vileparle East"@, 19098430i64, 72864947i64))
    } else if n == 1337 {
        Some(("ZWL001337"@, "Hyderabad Uppal"@, 17403149i64, 78554106i64))
    } else if n == 1344 {
        Some(("ZWL001344"@, "Mumbai Virar"@, 19461784i64, 72799199i64))
    } else if n == 1362 {
        Some(("ZWL001362"@, "Hyderabad Gachibowli"@, 17452114i64, 78351486i64))
    } else if n == 1398 {
        Some(("ZWL001398"@, "Chennai Redhills"@, 13191443i64, 80181225i64))
    } else if n == 1404 {
        Some(("ZWL001404"@, "Delhi NCR Rajinder Nagar"@, 28640732i64, 77182900i64))
    } else if n == 1410 {
        Some(("ZWL001410"@, "Mumbai Airoli"@, 19170339i64, 72995114i64))
    } else if n == 1412 {
        Some(("ZWL001412"@, "Delhi NCR Faridabad Sector 12-15"@, 28394334i64, 77324016i64))
    } else if n == 1438 {
        Some(("ZWL001438"@, "Nagpur Sadar"@, 21171681i64, 79072065i64))
    } else if n == 1466 {
        Some(("ZWL001466"@, "Visakhapatnam NAD, Vizag"@, 17749616i64, 83230677i64))
    } else if n == 1472 {
        Some(("ZWL001472"@, "Pune Kharadi"@, 18552390i64, 73941901i64))
    } else if n == 1499 {
        Some(("ZWL001499"@, "Kolkata South Dum Dum"@, 22621570i64, 88408915i64))
    } else if n == 1500 {
        Some(("ZWL001500"@, "Lucknow Mahanagar"@, 26886387i64, 80960641i64))
    } else if n == 1516 {
        Some(("ZWL001516"@, "Chennai T Nagar"@, 13026256i64, 80228120i64))
    } else if n == 1549 {
        Some(("ZWL001549"@, "Delhi NCR Sector 62 (Noida)"@, 28611088i64, 77369652i64))
    } else if n == 1579 {
        Some(("ZWL001579"@, "Hyderabad Malakpet"@, 17371621i64, 78502672i64))
    } else if n == 1584 {
        Some(("ZWL001584"@, "Kolkata Tangra"@, 22555059i64, 88388175i64))
    } else if n == 1624 {
        Some(("ZWL001624"@, "Jalandhar Basti Nau, Jalandhar"@, 31327456i64, 75549901i64))
    } else if n == 1627 {
        Some(("ZWL001627"@, "Pune Sus, Pune"@, 18564293i64, 73753879i64))
    } else if n == 1663 {
        Some(("ZWL001663"@, "Delhi NCR Uttam Nagar"@, 28616774i64, 77057136i64))
    } else if n == 1687 {
        Some(("ZWL001687"@, "Hyderabad Patancheru, Hyderabad"@, 17542613i64, 78276529i64))
    } else if n == 1701 {
        Some(("ZWL001701"@, "Chennai Tambaram"@, 12934834i64, 80101824i64))
    } else if n == 1750 {
        Some(("ZWL001750"@, "Jaipur Vaishali Nagar"@, 26909885i64, 75739394i64))
    } else if n == 1752 {
        Some(("ZWL001752"@, "Delhi NCR Sector 18 (Noida)"@, 28568937i64, 77324414i64))
    } else if n == 1758 {
        Some(("ZWL001758"@, "Delhi NCR Vaishali, Ghaziabad"@, 28649375i64, 77336609i64))
    } else if n == 1764 {
        Some(("ZWL001764"@, "Mumbai Marine lines"@, 18952178i64, 72825198i64))
    } else if n == 1778 {
        Some(("ZWL001778"@, "Pune Dhanori"@, 18588936i64, 73907711i64))
    } else if n == 1780 {
        Some(("ZWL001780"@, "Amritsar Himatpura, Amritsar"@, 31608999i64, 74863051i64))
    } else if n == 1822 {
        Some(("ZWL001822"@, "Hyderabad Amberpet"@, 17407658i64, 78521703i64))
    } else if n == 1823 {
        Some(("ZWL001823"@, "Bhubaneswar Lakshmi Sagar, Bhubneshwar"@, 20266492i64, 85851166i64))
    } else if n == 1898 {
        Some(("ZWL001898"@, "Ahmedabad Nikol"@, 23077071i64, 72637566i64))
    } else if n == 1933 {
        Some(("ZWL001933"@, "Delhi NCR Pitampura"@, 28688724i64, 77138225i64))
    } else if n == 1934 {
        Some(("ZWL001934"@, "Chandigarh Manimajra (Chandigarh)"@, 30722848i64, 76835395i64))
    } else if n == 1959 {
        Some(("ZWL001959"@, "Ahmedabad Vastrapur"@, 23042513i64, 72524312i64))
    } else if n == 1962 {
        Some(("ZWL001962"@, "Bengaluru MG Road"@, 12982689i64, 77608075i64))
    } else if n == 1963 {
        Some(("ZWL001963"@, "Pune Chakan"@, 18752436i64, 73837484i64))
    } else if n == 1981 {
        Some(("ZWL001981"@, "Kochi Kalamassery"@, 10046034i64, 76308117i64))
    } else if n == 2056 {
        Some(("ZWL002056"@, "Mumbai Hiranandani Estate"@, 19267411i64, 72967074i64))
    } else if n == 2059 {
        Some(("ZWL002059"@, "Mumbai Ulhasnagar (Mumbai)"@, 19224136i64, 73169340i64))
    } else if n == 2067 {
        Some(("ZWL002067"@, "Delhi NCR Chittaranjan Park"@, 28537530i64, 77249070i64))
    } else if n == 2072 {
        Some(("ZWL002072"@, "Delhi NCR Sector 76(Noida)"@, 28570828i64, 77390429i64))
    } else if n == 2073 {
        Some(("ZWL002073"@, "Amritsar White Avenue, Amritsar"@, 31657377i64, 74889594i64))
    } else if n == 2074 {
        Some(("ZWL002074"@, "Mumbai Naupada"@, 19188451i64, 72968001i64))
    } else if n == 2088 {
        Some(("ZWL002088"@, "Hyderabad Attapur"@, 17380875i64, 78415717i64))
    } else if n == 2091 {
        Some(("ZWL002091"@, "Delhi NCR Sector 49"@, 28408012i64, 77050064i64))
    } else if n == 2105 {
        Some(("ZWL002105"@, "Guwahati Paltan-Bazar, Guwahati"@, 26183358i64, 91752480i64))
    } else if n == 2106 {
        Some(("ZWL002106"@, "Vijayawada Gollapudi, Vijayawada"@, 16541337i64, 80585061i64))
    } else if n == 2137 {
        Some(("ZWL002137"@, "Goa Upper panaji, Goa"@, 15460913i64, 73835391i64))
    } else if n == 2142 {
        Some(("ZWL002142"@, "Goa Margao, Goa"@, 15231363i64, 73997689i64))
    } else if n == 2146 {
        Some(("ZWL002146"@, "Delhi NCR Mayur Vihar Phase III"@, 28606000i64, 77323675i64))
    } else if n == 2147 {
        Some(("ZWL002147"@, "Coimbatore Saravanampatty"@, 11070812i64, 76998053i64))
    } else if n == 2150 {
        Some(("ZWL002150"@, "Goa Verna, Goa"@, 15380640i64, 73909304i64))
    } else if n == 2155 {
        Some(("ZWL002155"@, "Surat City Light, Surat"@, 21159272i64, 72791465i64))
    } else if n == 2162 {
        Some(("ZWL002162"@, "Hyderabad LB Nagar"@, 17345727i64, 78557062i64))
    } else if n == 2179 {
        Some(("ZWL002179"@, "Delhi NCR Tigaon"@, 28417120i64, 77412569i64))
    } else if n == 2205 {
        Some(("ZWL002205"@, "Mumbai Fort"@, 18940613i64, 72834235i64))
    } else if n == 2208 {
        Some(("ZWL002208"@, "Pune Sinhagad Road(Pune)"@, 18477264i64, 73826437i64))
    } else if n == 2223 {
        Some(("ZWL002223"@, "Trivandrum Nemom, Thiruvananthapuram"@, 8430376i64, 77027424i64))
    } else if n == 2250 {
        Some(("ZWL002250"@, "Ahmedabad Infocity, Gandhinagar"@, 23177762i64, 72636221i64))
    } else if n == 2253 {
        Some(("ZWL002253"@, "Pune Bhosari (Pune)"@, 18643893i64, 73858653i64))
    } else if n == 2273 {
        Some(("ZWL002273"@, "Lucknow Gomti Nagar"@, 26850582i64, 80999875i64))
    } else if n == 2292 {
        Some(("ZWL002292"@, "Bengaluru Sarjapur road"@, 12900225i64, 77697451i64))
    } else if n == 2302 {
        Some(("ZWL002302"@, "Ahmedabad Shahibag"@, 23058607i64, 72592212i64))
    } else if n == 2303 {
        Some(("ZWL002303"@, "Chandigarh Sector 20, Panchkula"@, 30667002i64, 76860170i64))
    } else if n == 2312 {
        Some(("ZWL002312"@, "Kolkata Baguihati"@, 22614990i64, 88426184i64))
    } else if n == 2327 {
        Some(("ZWL002327"@, "Kochi Vypin, Kochi"@, 10019731i64, 76245595i64))
    } else if n == 2331 {
        Some(("ZWL002331"@, "Lucknow Alambagh"@, 26810769i64, 80904864i64))
    } else if n == 2344 {
        Some(("ZWL002344"@, "Jalandhar Gurdev Nagar, Jalandhar"@, 31347368i64, 75566556i64))
    } else if n == 2354 {
        Some(("ZWL002354"@, "Vadodara Waghodia"@, 22300216i64, 73229259i64))
    } else if n == 2422 {
        Some(("ZWL002422"@, "Pune Shivaji Nagar (Pune)"@, 18526724i64, 73841658i64))
    } else if n == 2433 {
        Some(("ZWL002433"@, "Hyderabad Sainikpuri"@, 17489079i64, 78558910i64))
    } else if n == 2446 {
        Some(("ZWL002446"@, "Vadodara Manjalpur, Vadodara"@, 22257070i64, 73191150i64))
    } else if n == 2458 {
        Some(("ZWL002458"@, "Mysore Central Mysore"@, 12326689i64, 76633539i64))
    } else if n == 2475 {
        Some(("ZWL002475"@, "Vadodara Alkapuri"@, 22313140i64, 73172760i64))
    } else if n == 2488 {
        Some(("ZWL002488"@, "Kolkata Barabazar Market"@, 22574220i64, 88366682i64))
    } else if n == 2490 {
        Some(("ZWL002490"@, "Delhi NCR Sector 84"@, 28395433i64, 76967436i64))
    } else if n == 2491 {
        Some(("ZWL002491"@, "Guwahati Changsari, Guwahati"@, 26262376i64, 91694879i64))
    } else if n == 2495 {
        Some(("ZWL002495"@, "Kolkata Bansdroni"@, 22472208i64, 88357875i64))
    } else if n == 2503 {
        Some(("ZWL002503"@, "Ahmedabad Chandkheda"@, 23117204i64, 72607123i64))
    } else {
        None
    }
}

/// Directory entries with numeric codes 2556 through 4196.
pub open spec fn entry_spec_b(n: int) -> Option<(Seq<char>, Seq<char>, i64, i64)> {
    if n == 2556 {
        Some(("ZWL002556"@, "Mumbai Titwala, Mumbai"@, 19292555i64, 73205899i64))
    } else if n == 2558 {
        Some(("ZWL002558"@, "Mumbai Palghar, Mumbai"@, 19700631i64, 72763031i64))
    } else if n == 2615 {
        Some(("ZWL002615"@, "Bhopal TT Nagar, Bhopal"@, 23223600i64, 77392134i64))
    } else if n == 2662 {
        Some(("ZWL002662"@, "Delhi NCR Vasundhara"@, 28665225i64, 77366782i64))
    } else if n == 2686 {
        Some(("ZWL002686"@, "Mumbai Wadala"@, 19017538i64, 72867138i64))
    } else if n == 2687 {
        Some(("ZWL002687"@, "Jammu Channi Himmat, Jammu"@, 32690740i64, 74886902i64))
    } else if n == 2703 {
        Some(("ZWL002703"@, "Coimbatore Racecourse, Coimbatore"@, 10999272i64, 76975662i64))
    } else if n == 2736 {
        Some(("ZWL002736"@, "Bengaluru RT Nagar"@, 13021267i64, 77601234i64))
    } else if n == 2742 {
        Some(("ZWL002742"@, "Mumbai Mumbra, Mumbai"@, 19172636i64, 73023715i64))
    } else if n == 2751 {
        Some(("ZWL002751"@, "Jaipur Malviya Nagar"@, 26854191i64, 75810798i64))
    } else if n == 2771 {
        Some(("ZWL002771"@, "Surat Varaccha, Surat"@, 21210937i64, 72857374i64))
    } else if n == 2821 {
        Some(("ZWL002821"@, "Bhubaneswar Kharabela Nagar, Bhubaneswar"@, 20271584i64, 85840940i64))
    } else if n == 2865 {
        Some(("ZWL002865"@, "Mumbai Kalyan,West,Mumbai"@, 19255127i64, 73128176i64))
    } else if n == 2872 {
        Some(("ZWL002872"@, "Bhopal MP Nagar,Bhopal"@, 23227641i64, 77447330i64))
    } else if n == 2882 {
        Some(("ZWL002882"@, "Bengaluru Kadugodi"@, 13007511i64, 77763209i64))
    } else if n == 2908 {
        Some(("ZWL002908"@, "Delhi NCR Sector 1, Noida"@, 28573663i64, 77415427i64))
    } else if n == 2918 {
        Some(("ZWL002918"@, "Kolkata Ballygunge"@, 22532686i64, 88362677i64))
    } else if n == 2921 {
        Some(("ZWL002921"@, "Mumbai Mulund West"@, 19170765i64, 72942239i64))
    } else if n == 2931 {
        Some(("ZWL002931"@, "Kolkata Kestopur"@, 22597524i64, 88431114i64))
    } else if n == 2986 {
        Some(("ZWL002986"@, "Kochi Nedumbassery,Kochi"@, 10178008i64, 76386636i64))
    } else if n == 3014 {
        Some(("ZWL003014"@, "Pune Bopkhel, Pune"@, 18586306i64, 73859602i64))
    } else if n == 3024 {
        Some(("ZWL003024"@, "Visakhapatnam Gajuwaka"@, 17681004i64, 83207459i64))
    } else if n == 3027 {
        Some(("ZWL003027"@, "Hyderabad Ameerpet"@, 17434737i64, 78446618i64))
    } else if n == 3030 {
        Some(("ZWL003030"@, "Lucknow Telibagh, Lucknow"@, 26776664i64, 80936755i64))
    } else if n == 3043 {
        Some(("ZWL003043"@, "Delhi NCR Sector 73 Z Kitchen"@, 28580105i64, 77385436i64))
    } else if n == 3075 {
        Some(("ZWL003075"@, "Delhi NCR Sector 66"@, 28380856i64, 77062751i64))
    } else if n == 3077 {
        Some(("ZWL003077"@, "Delhi NCR Green Park"@, 28562981i64, 77209729i64))
    } else if n == 3084 {
        Some(("ZWL003084"@, "Bhubaneswar Kalinga Nagar, Bhubneshwar"@, 20277934i64, 85773884i64))
    } else if n == 3093 {
        Some(("ZWL003093"@, "Chandigarh Sector 35 (Chandigarh)"@, 30727290i64, 76756632i64))
    } else if n == 3099 {
        Some(("ZWL003099"@, "Pune Nimgaon, Pune"@, 18794589i64, 73910016i64))
    } else if n == 3118 {
        Some(("ZWL003118"@, "Delhi NCR Sector 53"@, 28442743i64, 77104379i64))
    } else if n == 3119 {
        Some(("ZWL003119"@, "Ludhiana Dugri,Ludhiana"@, 30856247i64, 75843129i64))
    } else if n == 3128 {
        Some(("ZWL003128"@, "Kolkata Shibpur"@, 22578477i64, 88315675i64))
    } else if n == 3133 {
        Some(("ZWL003133"@, "Ahmedabad Paldi"@, 22994998i64, 72557474i64))
    } else if n == 3159 {
        Some(("ZWL003159"@, "Bengaluru Jalahalli"@, 13031518i64, 77530986i64))
    } else if n == 3195 {
        Some(("ZWL003195"@, "Raipur Shankar Nagar, Raipur"@, 21251392i64, 81663850i64))
    } else if n == 3241 {
        Some(("ZWL003241"@, "Delhi NCR Sector 56, Gurgaon"@, 28418235i64, 77101860i64))
    } else if n == 3259 {
        Some(("ZWL003259"@, "Delhi NCR Burari"@, 28753669i64, 77191037i64))
    } else if n == 3262 {
        Some(("ZWL003262"@, "Chandigarh Sector 70 (Chandigarh)"@, 30709870i64, 76692050i64))
    } else if n == 3270 {
        Some(("ZWL003270"@, "Bhubaneswar Nayapalli, Bhubneshwar"@, 20299879i64, 85813518i64))
    } else if n == 3271 {
        Some(("ZWL003271"@, "Kolkata Chandannagar, Kolkata"@, 22865442i64, 88367339i64))
    } else if n == 3283 {
        Some(("ZWL003283"@, "Hyderabad Himayatnagar"@, 17402602i64, 78487229i64))
    } else if n == 3300 {
        Some(("ZWL003300"@, "Pune Mundwa, Pune"@, 18535220i64, 73918549i64))
    } else if n == 3304 {
        Some(("ZWL003304"@, "Ludhiana Ganesh Nagar, Ludhiana"@, 30917540i64, 75879759i64))
    } else if n == 3315 {
        Some(("ZWL003315"@, "Kolkata Purba Barisha"@, 22474612i64, 88320775i64))
    } else if n == 3320 {
        Some(("ZWL003320"@, "Lucknow Vasant Kunj, Lucknow"@, 26877121i64, 80878447i64))
    } else if n == 3360 {
        Some(("ZWL003360"@, "Hyderabad Toli Chowki"@, 17398121i64, 78421238i64))
    } else if n == 3362 {
        Some(("ZWL003362"@, "Guwahati Azara, Guwahati"@, 26110966i64, 91602115i64))
    } else if n == 3370 {
        Some(("ZWL003370"@, "Hyderabad Nagole"@, 17359969i64, 78565724i64))
    } else if n == 3371 {
        Some(("ZWL003371"@, "Lucknow Ashiyana"@, 26790510i64, 80913855i64))
    } else if n == 3386 {
        Some(("ZWL003386"@, "Pune Dehu Road"@, 18695874i64, 73740365i64))
    } else if n == 3387 {
        Some(("ZWL003387"@, "Chennai Kilpauk"@, 13080772i64, 80248018i64))
    } else if n == 3388 {
        Some(("ZWL003388"@, "Kolkata Sinthi, Kolkata"@, 22627697i64, 88380719i64))
    } else if n == 3417 {
        Some(("ZWL003417"@, "s Mall, Bhopal"@, 23293081i64, 77396385i64))
    } else if n == 3425 {
        Some(("ZWL003425"@, "Lucknow Hazratganj"@, 26844819i64, 80940833i64))
    } else if n == 3444 {
        Some(("ZWL003444"@, "Delhi NCR Sector 50"@, 28418947i64, 77059581i64))
    } else if n == 3452 {
        Some(("ZWL003452"@, "Chennai Medavakkam"@, 12931197i64, 80182327i64))
    } else if n == 3455 {
        Some(("ZWL003455"@, "Ahmedabad Gota"@, 23131231i64, 72543606i64))
    } else if n == 3463 {
        Some(("ZWL003463"@, "Bhopal BHEL, Bhopal"@, 23267602i64, 77474332i64))
    } else if n == 3467 {
        Some(("ZWL003467"@, "Bengaluru Banashankari"@, 12936787i64, 77556079i64))
    } else if n == 3496 {
        Some(("ZWL003496"@, "Chandigarh Phase 10 Mohali"@, 30692094i64, 76733846i64))
    } else if n == 3498 {
        Some(("ZWL003498"@, "Pune Camp Area"@, 18513693i64, 73877293i64))
    } else if n == 3552 {
        Some(("ZWL003552"@, "Delhi NCR Jangpura"@, 28583630i64, 77246915i64))
    } else if n == 3591 {
        Some(("ZWL003591"@, "Delhi NCR Shahdara"@, 28688657i64, 77278267i64))
    } else if n == 3606 {
        Some(("ZWL003606"@, "Jaipur Lal Kothi"@, 26893689i64, 75797800i64))
    } else if n == 3610 {
        Some(("ZWL003610"@, "Delhi NCR Sector 48, Gurgaon"@, 28416008i64, 77032164i64))
    } else if n == 3626 {
        Some(("ZWL003626"@, "Delhi NCR Faridabad Sector 81-89"@, 28397247i64, 77345569i64))
    } else if n == 3633 {
        Some(("ZWL003633"@, "Nagpur Gandhibagh"@, 21146868i64, 79103994i64))
    } else if n == 3635 {
        Some(("ZWL003635"@, "Lucknow Indira Nagar, Lucknow"@, 26883684i64, 80990290i64))
    } else if n == 3661 {
        Some(("ZWL003661"@, "Coimbatore Gandhipuram, Coimbatore"@, 11019095i64, 76968472i64))
    } else if n == 3687 {
        Some(("ZWL003687"@, "Kolkata Baghajatin Colony"@, 22481243i64, 88374932i64))
    } else if n == 3704 {
        Some(("ZWL003704"@, "Jaipur C Scheme"@, 26916823i64, 75801190i64))
    } else if n == 3708 {
        Some(("ZWL003708"@, "Mumbai Palava"@, 19168067i64, 73074612i64))
    } else if n == 3721 {
        Some(("ZWL003721"@, "Delhi NCR Sector 57"@, 28422100i64, 77082740i64))
    } else if n == 3747 {
        Some(("ZWL003747"@, "Ahmedabad Navrangpura"@, 23038426i64, 72558241i64))
    } else if n == 3757 {
        Some(("ZWL003757"@, "Delhi NCR Vishnu Garden"@, 28646933i64, 77095064i64))
    } else if n == 3768 {
        Some(("ZWL003768"@, "Kochi Eroor"@, 9929826i64, 76332369i64))
    } else if n == 3786 {
        Some(("ZWL003786"@, "Kochi Kaloor"@, 10000143i64, 76298744i64))
    } else if n == 3794 {
        Some(("ZWL003794"@, "Kolkata Jadavpur"@, 22498720i64, 88362540i64))
    } else if n == 3813 {
        Some(("ZWL003813"@, "Pune Manjri,Pune"@, 18509232i64, 73978364i64))
    } else if n == 3817 {
        Some(("ZWL003817"@, "Pune Hinjewadi - Phase 1"@, 18596583i64, 73733312i64))
    } else if n == 3863 {
        Some(("ZWL003863"@, "Jaipur Tonk road 2"@, 26853567i64, 75794945i64))
    } else if n == 3882 {
        Some(("ZWL003882"@, "Kolkata Liluah"@, 22635342i64, 88343314i64))
    } else if n == 3905 {
        Some(("ZWL003905"@, "Vijayawada Labbipet, Vijayawada"@, 16510686i64, 80648812i64))
    } else if n == 3915 {
        Some(("ZWL003915"@, "Kolkata East Kolkata Township"@, 22512832i64, 88399411i64))
    } else if n == 3918 {
        Some(("ZWL003918"@, "Hyderabad Suraram, Hyderabad"@, 17559752i64, 78437467i64))
    } else if n == 3935 {
        Some(("ZWL003935"@, "Kolkata Dum Dum"@, 22656310i64, 88423694i64))
    } else if n == 3936 {
        Some(("ZWL003936"@, "Chandigarh Industrial Area Phase I (Chandigarh)"@, 30701381i64, 76808231i64))
    } else if n == 3951 {
        Some(("ZWL003951"@, "Kolkata Barrackpore"@, 22766771i64, 88361552i64))
    } else if n == 3967 {
        Some(("ZWL003967"@, "Chennai Anna Nagar, Chennai"@, 13086884i64, 80206602i64))
    } else if n == 3995 {
        Some(("ZWL003995"@, "Mumbai Lower Parel"@, 19005114i64, 72820143i64))
    } else if n == 4079 {
        Some(("ZWL004079"@, "Hyderabad Banjara Hills"@, 17419238i64, 78438474i64))
    } else if n == 4097 {
        Some(("ZWL004097"@, "Vadodara Fatehgunj"@, 22315398i64, 73199769i64))
    } else if n == 4098 {
        Some(("ZWL004098"@, "Bhubaneswar Khandagiri, Bhubneshwar"@, 20246979i64, 85766384i64))
    } else if n == 4101 {
        Some(("ZWL004101"@, "Chandigarh Sector 46 (Chandigarh)"@, 30705920i64, 76762310i64))
    } else if n == 4138 {
        Some(("ZWL004138"@, "Kolkata Shyam Bazar"@, 22594302i64, 88377284i64))
    } else if n == 4159 {
        Some(("ZWL004159"@, "Delhi NCR Sector 51"@, 28430042i64, 77065213i64))
    } else if n == 4164 {
        Some(("ZWL004164"@, "Bengaluru Bellandur"@, 12936225i64, 77665059i64))
    } else if n == 4189 {
        Some(("ZWL004189"@, "Mumbai Kurla West"@, 19079972i64, 72881537i64))
    } else if n == 4196 {
        Some(("ZWL004196"@, "Chandigarh VR Mall"@, 30730066i64, 76684242i64))
    } else {
        None
    }
}

/// Directory entries with numeric codes 4233 through 5729.
pub open spec fn entry_spec_c(n: int) -> Option<(Seq<char>, Seq<char>, i64, i64)> {
    if n == 4233 {
        Some(("ZWL004233"@, "Chennai Sholinganallur"@, 12921608i64, 80233727i64))
    } else if n == 4273 {
        Some(("ZWL004273"@, "Kochi North Paravur, Kochi"@, 10162441i64, 76216317i64))
    } else if n == 4297 {
        Some(("ZWL004297"@, "Chennai Pallavaram"@, 12973055i64, 80151271i64))
    } else if n == 4310 {
        Some(("ZWL004310"@, "Raipur Samta Colony, Raipur"@, 21243164i64, 81621252i64))
    } else if n == 4311 {
        Some(("ZWL004311"@, "Pune Magarpatta"@, 18519482i64, 73934360i64))
    } else if n == 4322 {
        Some(("ZWL004322"@, "Kolkata Kalyani 1, Kolkata"@, 22983813i64, 88427417i64))
    } else if n == 4339 {
        Some(("ZWL004339"@, "Pune Talegaon Dabhade"@, 18738724i64, 73675701i64))
    } else if n == 4341 {
        Some(("ZWL004341"@, "Bengaluru Brookefields"@, 12967420i64, 77717851i64))
    } else if n == 4408 {
        Some(("ZWL004408"@, "Coimbatore Kunniamuthur, Coimbatore"@, 10937589i64, 76933705i64))
    } else if n == 4415 {
        Some(("ZWL004415"@, "Ahmedabad Naranpura"@, 23072018i64, 72573161i64))
    } else if n == 4428 {
        Some(("ZWL004428"@, "Vijayawada Gunadala, Vijayawada"@, 16515748i64, 80690025i64))
    } else if n == 4431 {
        Some(("ZWL004431"@, "Chennai Vadapalani"@, 13065160i64, 80207917i64))
    } else if n == 4436 {
        Some(("ZWL004436"@, "Lucknow Arjunganj"@, 26794554i64, 80999112i64))
    } else if n == 4439 {
        Some(("ZWL004439"@, "Vadodara Akota"@, 22298674i64, 73178672i64))
    } else if n == 4452 {
        Some(("ZWL004452"@, "Goa Calangute, Goa"@, 15532704i64, 73762608i64))
    } else if n == 4455 {
        Some(("ZWL004455"@, "Delhi NCR Sector 28"@, 28473457i64, 77087532i64))
    } else if n == 4477 {
        Some(("ZWL004477"@, "Delhi NCR GK II"@, 28533936i64, 77243800i64))
    } else if n == 4494 {
        Some(("ZWL004494"@, "Mumbai Ghatkopar East, Mumbai"@, 19080794i64, 72922280i64))
    } else if n == 4513 {
        Some(("ZWL004513"@, "Pune Keshavnagar, Pune"@, 18537273i64, 73944521i64))
    } else if n == 4523 {
        Some(("ZWL004523"@, "Pune"@, 18600897i64, 73798441i64))
    } else if n == 4533 {
        Some(("ZWL004533"@, "Delhi NCR Karkardooma, Delhi"@, 28656829i64, 77310553i64))
    } else if n == 4535 {
        Some(("ZWL004535"@, "Delhi NCR Patel Nagar, Delhi"@, 28652848i64, 77167909i64))
    } else if n == 4575 {
        Some(("ZWL004575"@, "Pune Wagholi"@, 18579310i64, 73972122i64))
    } else if n == 4590 {
        Some(("ZWL004590"@, "Amritsar Ranjit Avenue, Amritsar"@, 31666773i64, 74850200i64))
    } else if n == 4591 {
        Some(("ZWL004591"@, "Kochi Fort Kochi"@, 9931564i64, 76268065i64))
    } else if n == 4621 {
        Some(("ZWL004621"@, "Goa Vasco, Goa"@, 15387592i64, 73829979i64))
    } else if n == 4665 {
        Some(("ZWL004665"@, "Hyderabad Narayanguda"@, 17392120i64, 78494443i64))
    } else if n == 4691 {
        Some(("ZWL004691"@, "Kochi Ambalamugal"@, 9980241i64, 76397987i64))
    } else if n == 4692 {
        Some(("ZWL004692"@, "Mumbai Dadar West"@, 19021199i64, 72835378i64))
    } else if n == 4713 {
        Some(("ZWL004713"@, "Jalandhar Rama Mandi, Jalandhar"@, 31314281i64, 75617635i64))
    } else if n == 4716 {
        Some(("ZWL004716"@, "Chandigarh Sector 59 (Chandigarh)"@, 30725954i64, 76716657i64))
    } else if n == 4722 {
        Some(("ZWL004722"@, "Kolkata Kasba"@, 22521693i64, 88389844i64))
    } else if n == 4747 {
        Some(("ZWL004747"@, "Hyderabad Q City, Hyderabad"@, 17421788i64, 78318868i64))
    } else if n == 4749 {
        Some(("ZWL004749"@, "Mumbai Santacruz West"@, 19082610i64, 72835608i64))
    } else if n == 4755 {
        Some(("ZWL004755"@, "Visakhapatnam Dwaraka Nagar"@, 17739116i64, 83324672i64))
    } else if n == 4759 {
        Some(("ZWL004759"@, "Delhi NCR Gaur city, Ghaziabad"@, 28607703i64, 77434385i64))
    } else if n == 4763 {
        Some(("ZWL004763"@, "Guwahati Dharapur, Guwahati"@, 26134004i64, 91623895i64))
    } else if n == 4767 {
        Some(("ZWL004767"@, "Hyderabad Karkhana"@, 17467142i64, 78496696i64))
    } else if n == 4789 {
        Some(("ZWL004789"@, "Delhi NCR Sector 18"@, 28495291i64, 77069729i64))
    } else if n == 4800 {
        Some(("ZWL004800"@, "Delhi NCR Kalkaji"@, 28529029i64, 77258939i64))
    } else if n == 4802 {
        Some(("ZWL004802"@, "Hyderabad Madhapur"@, 17441185i64, 78398416i64))
    } else if n == 4803 {
        Some(("ZWL004803"@, "Delhi NCR Sector 100 (Noida)"@, 28547583i64, 77370951i64))
    } else if n == 4821 {
        Some(("ZWL004821"@, "Mumbai Boisar, Mumbai"@, 19804797i64, 72745805i64))
    } else if n == 4882 {
        Some(("ZWL004882"@, "Chennai Urapakkam"@, 12878957i64, 80070307i64))
    } else if n == 4900 {
        Some(("ZWL004900"@, "Bengaluru Rajarajeshwari Nagar"@, 12918637i64, 77505467i64))
    } else if n == 4924 {
        Some(("ZWL004924"@, "Bengaluru Bannerghatta Road, Bangalore"@, 12891397i64, 77608176i64))
    } else if n == 4925 {
        Some(("ZWL004925"@, "Kolkata Rajarhat"@, 22621505i64, 88446915i64))
    } else if n == 4927 {
        Some(("ZWL004927"@, "Pune Aundh (Pune)"@, 18559795i64, 73807123i64))
    } else if n == 4934 {
        Some(("ZWL004934"@, "Mumbai Kandivali West"@, 19212156i64, 72828850i64))
    } else if n == 4962 {
        Some(("ZWL004962"@, "Pune Hinjewadi - Phase 2"@, 18585004i64, 73706319i64))
    } else if n == 4971 {
        Some(("ZWL004971"@, "Mumbai Mulund East"@, 19154253i64, 72962493i64))
    } else if n == 4978 {
        Some(("ZWL004978"@, "Lucknow Husainganj"@, 26836970i64, 80926110i64))
    } else if n == 5000 {
        Some(("ZWL005000"@, "Mumbai Goregaon West"@, 19162722i64, 72841610i64))
    } else if n == 5077 {
        Some(("ZWL005077"@, "Delhi NCR Rohini"@, 28723712i64, 77104596i64))
    } else if n == 5080 {
        Some(("ZWL005080"@, "Jaipur Sodala"@, 26904751i64, 75777608i64))
    } else if n == 5082 {
        Some(("ZWL005082"@, "Jaipur Mansarovar-2"@, 26844258i64, 75768570i64))
    } else if n == 5087 {
        Some(("ZWL005087"@, "Delhi NCR Palam Vihar, Gurgaon"@, 28508782i64, 77033506i64))
    } else if n == 5088 {
        Some(("ZWL005088"@, "Pune Yewalewadi, Pune"@, 18439804i64, 73902433i64))
    } else if n == 5093 {
        Some(("ZWL005093"@, "Goa Ponda, Goa"@, 15398953i64, 74002377i64))
    } else if n == 5095 {
        Some(("ZWL005095"@, "Surat Udhna, Surat"@, 21166218i64, 72850231i64))
    } else if n == 5121 {
        Some(("ZWL005121"@, "Kolkata Santragachi"@, 22621044i64, 88283605i64))
    } else if n == 5174 {
        Some(("ZWL005174"@, "Kolkata Shapoorji"@, 22567623i64, 88497427i64))
    } else if n == 5190 {
        Some(("ZWL005190"@, "Chennai Nungambakkam"@, 13060471i64, 80255887i64))
    } else if n == 5206 {
        Some(("ZWL005206"@, "Bengaluru Sahakaranagar"@, 13059918i64, 77591344i64))
    } else if n == 5243 {
        Some(("ZWL005243"@, "Delhi NCR Sector 26 (Noida)"@, 28574404i64, 77334178i64))
    } else if n == 5244 {
        Some(("ZWL005244"@, "Kolkata Park Street area"@, 22552632i64, 88362888i64))
    } else if n == 5256 {
        Some(("ZWL005256"@, "Ludhiana BRS Nagar, Ludhiana"@, 30897774i64, 75787544i64))
    } else if n == 5308 {
        Some(("ZWL005308"@, "Vijayawada Governorpet, Vijayawada"@, 16520989i64, 80636340i64))
    } else if n == 5319 {
        Some(("ZWL005319"@, "Guwahati Maligaon - Jalukbari, Guwahati"@, 26161285i64, 91689576i64))
    } else if n == 5320 {
        Some(("ZWL005320"@, "Mumbai Colaba"@, 18919405i64, 72824376i64))
    } else if n == 5323 {
        Some(("ZWL005323"@, "Delhi NCR Mayur Vihar Phase II"@, 28613695i64, 77302775i64))
    } else if n == 5340 {
        Some(("ZWL005340"@, "Pune"@, 18599555i64, 73774652i64))
    } else if n == 5345 {
        Some(("ZWL005345"@, "Delhi NCR Paharganj"@, 28645112i64, 77212824i64))
    } else if n == 5375 {
        Some(("ZWL005375"@, "Bengaluru Vijayanagar"@, 12973219i64, 77519303i64))
    } else if n == 5395 {
        Some(("ZWL005395"@, "Delhi NCR Munirka"@, 28554395i64, 77172547i64))
    } else if n == 5408 {
        Some(("ZWL005408"@, "Jalandhar Model Town, Jalandhar"@, 31299818i64, 75582441i64))
    } else if n == 5423 {
        Some(("ZWL005423"@, "Surat Katargam, Surat"@, 21231792i64, 72824230i64))
    } else if n == 5424 {
        Some(("ZWL005424"@, "Hyderabad Manikonda"@, 17405930i64, 78388380i64))
    } else if n == 5425 {
        Some(("ZWL005425"@, "Kochi Aluva, Kochi"@, 10106615i64, 76348843i64))
    } else if n == 5428 {
        Some(("ZWL005428"@, "Delhi NCR Tilak Nagar"@, 28641372i64, 77094689i64))
    } else if n == 5429 {
        Some(("ZWL005429"@, "Kolkata Gariahat"@, 22514492i64, 88362000i64))
    } else if n == 5435 {
        Some(("ZWL005435"@, "Kolkata Baranagar, Kolkata"@, 22660464i64, 88374255i64))
    } else if n == 5442 {
        Some(("ZWL005442"@, "Mumbai Thane West"@, 19227309i64, 72972736i64))
    } else if n == 5468 {
        Some(("ZWL005468"@, "Coimbatore Podanur, Coimbatore"@, 10977206i64, 76981702i64))
    } else if n == 5470 {
        Some(("ZWL005470"@, "Lucknow Chinhat, Lucknow"@, 26878323i64, 81038299i64))
    } else if n == 5494 {
        Some(("ZWL005494"@, "Hyderabad Tarnaka"@, 17431829i64, 78550940i64))
    } else if n == 5520 {
        Some(("ZWL005520"@, "Pune Warje (Pune)"@, 18472703i64, 73788400i64))
    } else if n == 5530 {
        Some(("ZWL005530"@, "Bengaluru JP Nagar"@, 12893441i64, 77560436i64))
    } else if n == 5549 {
        Some(("ZWL005549"@, "Nagpur Pratap Nagar"@, 21114916i64, 79051774i64))
    } else if n == 5555 {
        Some(("ZWL005555"@, "Kochi Kakkanad"@, 10014153i64, 76358626i64))
    } else if n == 5558 {
        Some(("ZWL005558"@, "Kolkata Nimta"@, 22670256i64, 88413503i64))
    } else if n == 5568 {
        Some(("ZWL005568"@, "Goa Porvorim, Goa"@, 15535007i64, 73827229i64))
    } else if n == 5569 {
        Some(("ZWL005569"@, "Hyderabad Vanasthali Puram"@, 17318241i64, 78544989i64))
    } else if n == 5576 {
        Some(("ZWL005576"@, "Bengaluru BIAL Airport Road"@, 13178996i64, 77630005i64))
    } else if n == 5626 {
        Some(("ZWL005626"@, "Surat New Textile Market, Surat"@, 21199018i64, 72828239i64))
    } else if n == 5652 {
        Some(("ZWL005652"@, "Bhubaneswar Patia, Bhubneshwar"@, 20363954i64, 85814321i64))
    } else if n == 5670 {
        Some(("ZWL005670"@, "Delhi NCR Rajouri Garden"@, 28646438i64, 77122357i64))
    } else if n == 5697 {
        Some(("ZWL005697"@, "Mumbai Bandra East"@, 19064138i64, 72852737i64))
    } else if n == 5708 {
        Some(("ZWL005708"@, "Guwahati Zoo Tiniali - Christian basti"@, 26177033i64, 91779799i64))
    } else if n == 5729 {
        Some(("ZWL005729"@, "Delhi NCR NEHRU PLACE"@, 28555622i64, 77250890i64))
    } else {
        None
    }
}

/// Directory entries with numeric codes 5736 through 7224.
pub open spec fn entry_spec_d(n: int) -> Option<(Seq<char>, Seq<char>, i64, i64)> {
    if n == 5736 {
        Some(("ZWL005736"@, "Delhi NCR Lajpat Nagar"@, 28565415i64, 77247221i64))
    } else if n == 5742 {
        Some(("ZWL005742"@, "Coimbatore Vadavalli"@, 11024820i64, 76900648i64))
    } else if n == 5762 {
        Some(("ZWL005762"@, "Delhi NCR Sector 47"@, 28424524i64, 77050065i64))
    } else if n == 5764 {
        Some(("ZWL005764"@, "Delhi NCR Sarita Vihar"@, 28531759i64, 77293973i64))
    } else if n == 5773 {
        Some(("ZWL005773"@, "Pune Bibvewadi (Pune)"@, 18492332i64, 73861939i64))
    } else if n == 5826 {
        Some(("ZWL005826"@, "Amritsar Chheharta, Amritsar"@, 31633049i64, 74817702i64))
    } else if n == 5836 {
        Some(("ZWL005836"@, "Bhopal Hoshangabad Road, Bhopal"@, 23168118i64, 77482657i64))
    } else if n == 5857 {
        Some(("ZWL005857"@, "Chennai Mogappair, Chennai"@, 13080365i64, 80175724i64))
    } else if n == 5858 {
        Some(("ZWL005858"@, "Vijayawada Auto Nagar, Vijayawada"@, 16487591i64, 80685560i64))
    } else if n == 5876 {
        Some(("ZWL005876"@, "Delhi NCR GK I"@, 28550911i64, 77235272i64))
    } else if n == 5878 {
        Some(("ZWL005878"@, "Delhi NCR Sector 128"@, 28526706i64, 77354868i64))
    } else if n == 5892 {
        Some(("ZWL005892"@, "Jammu Barnai, Jammu"@, 32755253i64, 74825204i64))
    } else if n == 5919 {
        Some(("ZWL005919"@, "Hyderabad Kukatpally"@, 17495894i64, 78416259i64))
    } else if n == 5925 {
        Some(("ZWL005925"@, "Delhi NCR DLF PHASE 1 (SECTOR 26)"@, 28477910i64, 77103843i64))
    } else if n == 5960 {
        Some(("ZWL005960"@, "Delhi NCR Ballabhgarh"@, 28343049i64, 77330317i64))
    } else if n == 5963 {
        Some(("ZWL005963"@, "Hyderabad Masab Tank"@, 17398217i64, 78462258i64))
    } else if n == 5971 {
        Some(("ZWL005971"@, "Delhi NCR Kirti Nagar"@, 28654433i64, 77142367i64))
    } else if n == 5979 {
        Some(("ZWL005979"@, "Ahmedabad Science-City Sola"@, 23087361i64, 72510289i64))
    } else if n == 5987 {
        Some(("ZWL005987"@, "Ahmedabad Sector 16, Gandhinagar"@, 23216612i64, 72652543i64))
    } else if n == 5991 {
        Some(("ZWL005991"@, "Mumbai Borivali East"@, 19241003i64, 72865970i64))
    } else if n == 5996 {
        Some(("ZWL005996"@, "Delhi NCR New Friends Colony"@, 28565268i64, 77274971i64))
    } else if n == 5999 {
        Some(("ZWL005999"@, "Hyderabad ECIL"@, 17460327i64, 78567924i64))
    } else if n == 6000 {
        Some(("ZWL006000"@, "Surat Vesu, Surat"@, 21136777i64, 72762895i64))
    } else if n == 6016 {
        Some(("ZWL006016"@, "Hyderabad Kompally"@, 17533309i64, 78489965i64))
    } else if n == 6032 {
        Some(("ZWL006032"@, "Mumbai Vasai"@, 19364358i64, 72836612i64))
    } else if n == 6053 {
        Some(("ZWL006053"@, "Chennai Porur"@, 13048069i64, 80158163i64))
    } else if n == 6092 {
        Some(("ZWL006092"@, "Delhi NCR Sector 46"@, 28438586i64, 77060773i64))
    } else if n == 6116 {
        Some(("ZWL006116"@, "Delhi NCR Patparganj"@, 28632961i64, 77308344i64))
    } else if n == 6156 {
        Some(("ZWL006156"@, "Chennai Velachery"@, 12989300i64, 80199988i64))
    } else if n == 6208 {
        Some(("ZWL006208"@, "Ludhiana Civil Lines, Ludhiana"@, 30916548i64, 75818266i64))
    } else if n == 6232 {
        Some(("ZWL006232"@, "Chennai Royapuram"@, 13136635i64, 80289535i64))
    } else if n == 6234 {
        Some(("ZWL006234"@, "Delhi NCR SAHIBABAD"@, 28682920i64, 77362827i64))
    } else if n == 6236 {
        Some(("ZWL006236"@, "Pune Bavdhan"@, 18514730i64, 73777922i64))
    } else if n == 6266 {
        Some(("ZWL006266"@, "Kolkata Barasat"@, 22735727i64, 88490498i64))
    } else if n == 6274 {
        Some(("ZWL006274"@, "Bengaluru Electronic City"@, 12833101i64, 77673182i64))
    } else if n == 6287 {
        Some(("ZWL006287"@, "Delhi NCR Sector 15"@, 28457927i64, 77034816i64))
    } else if n == 6288 {
        Some(("ZWL006288"@, "Ahmedabad Bopal"@, 23011294i64, 72464041i64))
    } else if n == 6295 {
        Some(("ZWL006295"@, "Delhi NCR Mohan Estate"@, 28494788i64, 77312727i64))
    } else if n == 6329 {
        Some(("ZWL006329"@, "Chennai Thandalam, Chennai"@, 12863785i64, 79947886i64))
    } else if n == 6369 {
        Some(("ZWL006369"@, "Bengaluru KR Puram"@, 13016987i64, 77706819i64))
    } else if n == 6372 {
        Some(("ZWL006372"@, "Jaipur Pratap Nagar"@, 26798396i64, 75815353i64))
    } else if n == 6384 {
        Some(("ZWL006384"@, "Delhi NCR Gulavali, Noida"@, 28436941i64, 77456903i64))
    } else if n == 6396 {
        Some(("ZWL006396"@, "Delhi NCR Moti Bagh, Delhi"@, 28575774i64, 77180697i64))
    } else if n == 6403 {
        Some(("ZWL006403"@, "Goa Morjim, Goa"@, 15653757i64, 73747022i64))
    } else if n == 6432 {
        Some(("ZWL006432"@, "Nagpur Kharabi, Nagpur"@, 21144692i64, 79136306i64))
    } else if n == 6449 {
        Some(("ZWL006449"@, "Mangalore South Mangalore"@, 12879030i64, 74854593i64))
    } else if n == 6490 {
        Some(("ZWL006490"@, "Lucknow Aminabad"@, 26856770i64, 80925103i64))
    } else if n == 6520 {
        Some(("ZWL006520"@, "Chennai Adyar"@, 12993947i64, 80247174i64))
    } else if n == 6521 {
        Some(("ZWL006521"@, "Kolkata Sodepur"@, 22701254i64, 88383329i64))
    } else if n == 6535 {
        Some(("ZWL006535"@, "Hyderabad Hayath Nagar, Hyderabad"@, 17326620i64, 78609288i64))
    } else if n == 6536 {
        Some(("ZWL006536"@, "Mumbai Mira Road East"@, 19278130i64, 72874722i64))
    } else if n == 6537 {
        Some(("ZWL006537"@, "Guwahati Basistha-Lokhra, Guwahati"@, 26116888i64, 91777488i64))
    } else if n == 6538 {
        Some(("ZWL006538"@, "Delhi NCR Connaught Place"@, 28630630i64, 77220640i64))
    } else if n == 6544 {
        Some(("ZWL006544"@, "Mumbai Mahim"@, 19039256i64, 72843913i64))
    } else if n == 6545 {
        Some(("ZWL006545"@, "Hyderabad Sangareddy, Hyderabad"@, 17598038i64, 78091346i64))
    } else if n == 6556 {
        Some(("ZWL006556"@, "Goa Majorda, Goa"@, 15255895i64, 73937616i64))
    } else if n == 6574 {
        Some(("ZWL006574"@, "Kolkata Tollygunge"@, 22498620i64, 88351732i64))
    } else if n == 6600 {
        Some(("ZWL006600"@, "Bengaluru BTM Layout"@, 12916931i64, 77608897i64))
    } else if n == 6622 {
        Some(("ZWL006622"@, "Mumbai Powai, Mumbai"@, 19115248i64, 72908952i64))
    } else if n == 6631 {
        Some(("ZWL006631"@, "Bengaluru Kammanahalli"@, 13016050i64, 77661735i64))
    } else if n == 6651 {
        Some(("ZWL006651"@, "Raipur Civil Lines, Raipur"@, 21243402i64, 81650848i64))
    } else if n == 6658 {
        Some(("ZWL006658"@, "Bengaluru Yelahanka"@, 13111809i64, 77589276i64))
    } else if n == 6660 {
        Some(("ZWL006660"@, "Pune SP Infocity, Pune"@, 18487813i64, 73947187i64))
    } else if n == 6687 {
        Some(("ZWL006687"@, "Chandigarh Sector 8 (Chandigarh)"@, 30749265i64, 76801584i64))
    } else if n == 6697 {
        Some(("ZWL006697"@, "Delhi NCR Mehrauli"@, 28524426i64, 77183996i64))
    } else if n == 6699 {
        Some(("ZWL006699"@, "Hyderabad Hafiz Baba Nagar"@, 17338717i64, 78497590i64))
    } else if n == 6702 {
        Some(("ZWL006702"@, "Hyderabad Peerzadiguda"@, 17411644i64, 78578220i64))
    } else if n == 6720 {
        Some(("ZWL006720"@, "Delhi NCR Paschim Vihar"@, 28665591i64, 77098478i64))
    } else if n == 6738 {
        Some(("ZWL006738"@, "Delhi NCR Sector 120 (Noida)"@, 28586854i64, 77390832i64))
    } else if n == 6743 {
        Some(("ZWL006743"@, "Pune Viman nagar"@, 18564998i64, 73911551i64))
    } else if n == 6750 {
        Some(("ZWL006750"@, "Kolkata Bhowanipore"@, 22526436i64, 88343904i64))
    } else if n == 6788 {
        Some(("ZWL006788"@, "Ludhiana Sarabha Nagar, Ludhiana"@, 30891869i64, 75834901i64))
    } else if n == 6789 {
        Some(("ZWL006789"@, "Chennai Potheri"@, 12799983i64, 80029865i64))
    } else if n == 6817 {
        Some(("ZWL006817"@, "Chandigarh Sector 28 (Chandigarh)"@, 30724245i64, 76808833i64))
    } else if n == 6844 {
        Some(("ZWL006844"@, "Bengaluru Rajajinagar"@, 12993217i64, 77557903i64))
    } else if n == 6854 {
        Some(("ZWL006854"@, "Bengaluru Varthur"@, 12936055i64, 77723415i64))
    } else if n == 6868 {
        Some(("ZWL006868"@, "Delhi NCR Nehru Nagar"@, 28653441i64, 77449969i64))
    } else if n == 6873 {
        Some(("ZWL006873"@, "Kochi Ernakulam"@, 9969514i64, 76288288i64))
    } else if n == 6900 {
        Some(("ZWL006900"@, "Bhopal Airport Area, Bhopal"@, 23290449i64, 77337426i64))
    } else if n == 6937 {
        Some(("ZWL006937"@, "Mumbai Kandivali East"@, 19200730i64, 72865461i64))
    } else if n == 6938 {
        Some(("ZWL006938"@, "Mumbai Goregaon East"@, 19163093i64, 72872277i64))
    } else if n == 6981 {
        Some(("ZWL006981"@, "Guwahati Pathar Quarry, Guwahati"@, 26159879i64, 91827651i64))
    } else if n == 6995 {
        Some(("ZWL006995"@, "Mumbai Bandra West"@, 19068857i64, 72833000i64))
    } else if n == 6996 {
        Some(("ZWL006996"@, "Delhi NCR Model Town"@, 28717232i64, 77194643i64))
    } else if n == 7011 {
        Some(("ZWL007011"@, "Lucknow Kalyanpur"@, 26907206i64, 80974143i64))
    } else if n == 7041 {
        Some(("ZWL007041"@, "Kolkata Sonarpur, Kolkata"@, 22432033i64, 88408369i64))
    } else if n == 7059 {
        Some(("ZWL007059"@, "Chennai Ashok Nagar (CHENNAI)"@, 13022680i64, 80200286i64))
    } else if n == 7061 {
        Some(("ZWL007061"@, "Delhi NCR Sector 31"@, 28442946i64, 77057195i64))
    } else if n == 7095 {
        Some(("ZWL007095"@, "Guwahati Lal Ganesh - Kahilipara, Guwahati"@, 26145102i64, 91752656i64))
    } else if n == 7119 {
        Some(("ZWL007119"@, "Hyderabad Nizampet"@, 17509398i64, 78390364i64))
    } else if n == 7120 {
        Some(("ZWL007120"@, "Delhi NCR Vasant Kunj, Delhi"@, 28524633i64, 77151206i64))
    } else if n == 7138 {
        Some(("ZWL007138"@, "Delhi NCR Sector 7, Gurgaon"@, 28476288i64, 77013365i64))
    } else if n == 7171 {
        Some(("ZWL007171"@, "Chennai Selaiyur"@, 12916570i64, 80134348i64))
    } else if n == 7176 {
        Some(("ZWL007176"@, "Chennai Poonamallee"@, 13052763i64, 80090763i64))
    } else if n == 7187 {
        Some(("ZWL007187"@, "Hyderabad Kondapur"@, 17472485i64, 78367854i64))
    } else if n == 7188 {
        Some(("ZWL007188"@, "Nagpur Ayodhya Nagar, Nagpur"@, 21103625i64, 79104888i64))
    } else if n == 7209 {
        Some(("ZWL007209"@, "Chennai Ambattur"@, 13117566i64, 80146667i64))
    } else if n == 7212 {
        Some(("ZWL007212"@, "Delhi NCR Sector 52 (Noida)"@, 28595742i64, 77362995i64))
    } else if n == 7216 {
        Some(("ZWL007216"@, "Kochi Thiruvankulam"@, 9932264i64, 76385740i64))
    } else if n == 7224 {
        Some(("ZWL007224"@, "Delhi NCR Indirapuram"@, 28644059i64, 77373883i64))
    } else {
        None
    }
}

/// Directory entries with numeric codes 7249 through 8806.
pub open spec fn entry_spec_e(n: int) -> Option<(Seq<char>, Seq<char>, i64, i64)> {
    if n == 7249 {
        Some(("ZWL007249"@, "Mumbai Bhiwandi"@, 19251790i64, 73087318i64))
    } else if n == 7275 {
        Some(("ZWL007275"@, "Mumbai Vashi"@, 19067662i64, 73004987i64))
    } else if n == 7284 {
        Some(("ZWL007284"@, "Delhi NCR Sector 43, Gurgaon"@, 28454416i64, 77088820i64))
    } else if n == 7308 {
        Some(("ZWL007308"@, "Delhi NCR Sector 29, Gurgaon"@, 28459498i64, 77061046i64))
    } else if n == 7311 {
        Some(("ZWL007311"@, "Hyderabad Medchal Road"@, 17637191i64, 78480392i64))
    } else if n == 7323 {
        Some(("ZWL007323"@, "Kolkata New Alipore"@, 22506135i64, 88332770i64))
    } else if n == 7329 {
        Some(("ZWL007329"@, "Delhi NCR Saket"@, 28523171i64, 77207543i64))
    } else if n == 7344 {
        Some(("ZWL007344"@, "Hyderabad Charminar"@, 17375037i64, 78454499i64))
    } else if n == 7379 {
        Some(("ZWL007379"@, "Bhubaneswar Sahid Nagar, Bhubaneshwar"@, 20289125i64, 85856680i64))
    } else if n == 7390 {
        Some(("ZWL007390"@, "Hyderabad Saroor Nagar"@, 17348264i64, 78530476i64))
    } else if n == 7397 {
        Some(("ZWL007397"@, "Mumbai Kalyan,East (Mumbai)"@, 19221503i64, 73138111i64))
    } else if n == 7404 {
        Some(("ZWL007404"@, "Ahmedabad Prahlad Nagar"@, 22998074i64, 72515955i64))
    } else if n == 7431 {
        Some(("ZWL007431"@, "Delhi NCR Najafgarh"@, 28607458i64, 76995980i64))
    } else if n == 7456 {
        Some(("ZWL007456"@, "Amritsar Hall Bazar, Amritsar"@, 31632158i64, 74866838i64))
    } else if n == 7457 {
        Some(("ZWL007457"@, "Jammu Greater Kailash, Jammu"@, 32670712i64, 74901243i64))
    } else if n == 7471 {
        Some(("ZWL007471"@, "Pune Khadki, Pune"@, 18563289i64, 73835023i64))
    } else if n == 7486 {
        Some(("ZWL007486"@, "Delhi NCR Dwarka, Delhi"@, 28594467i64, 77047747i64))
    } else if n == 7487 {
        Some(("ZWL007487"@, "Delhi NCR Sector 50 (Noida)"@, 28569103i64, 77364876i64))
    } else if n == 7491 {
        Some(("ZWL007491"@, "Bhubaneswar Madhusudan Nagar, Bhubaneswar"@, 20278497i64, 85824922i64))
    } else if n == 7514 {
        Some(("ZWL007514"@, "Kolkata Chhota Jagulia"@, 22759573i64, 88747215i64))
    } else if n == 7527 {
        Some(("ZWL007527"@, "Coimbatore Peelamedu, Coimbatore"@, 11026179i64, 77005899i64))
    } else if n == 7561 {
        Some(("ZWL007561"@, "Chandigarh Sector 15 (Chandigarh)"@, 30764466i64, 76774815i64))
    } else if n == 7566 {
        Some(("ZWL007566"@, "Delhi NCR Faridabad Sector 16-20"@, 28422437i64, 77310113i64))
    } else if n == 7594 {
        Some(("ZWL007594"@, "Delhi NCR Naraina"@, 28627479i64, 77142115i64))
    } else if n == 7600 {
        Some(("ZWL007600"@, "Coimbatore Koundampalayam"@, 11068353i64, 76937962i64))
    } else if n == 7606 {
        Some(("ZWL007606"@, "Mumbai Tardeo"@, 18961317i64, 72805513i64))
    } else if n == 7628 {
        Some(("ZWL007628"@, "Bengaluru New BEL Road"@, 13040495i64, 77569420i64))
    } else if n == 7633 {
        Some(("ZWL007633"@, "Bengaluru Whitefield"@, 12975224i64, 77740422i64))
    } else if n == 7643 {
        Some(("ZWL007643"@, "Bengaluru Mahadevapura"@, 12985322i64, 77687578i64))
    } else if n == 7653 {
        Some(("ZWL007653"@, "Delhi NCR Mukherjee Nagar"@, 28702971i64, 77209740i64))
    } else if n == 7666 {
        Some(("ZWL007666"@, "Delhi NCR Sector 45 (Noida)"@, 28555596i64, 77345713i64))
    } else if n == 7667 {
        Some(("ZWL007667"@, "Mumbai Andheri West"@, 19137106i64, 72834828i64))
    } else if n == 7690 {
        Some(("ZWL007690"@, "Mumbai Nerul (Navi Mumbai)"@, 19031072i64, 73026647i64))
    } else if n == 7698 {
        Some(("ZWL007698"@, "Pune NIGDI(Pune)"@, 18646511i64, 73775411i64))
    } else if n == 7699 {
        Some(("ZWL007699"@, "Mumbai Ambernath"@, 19199776i64, 73181176i64))
    } else if n == 7706 {
        Some(("ZWL007706"@, "Mumbai Dahisar West"@, 19255014i64, 72848267i64))
    } else if n == 7731 {
        Some(("ZWL007731"@, "Lucknow Aliganj, Lucknow"@, 26890082i64, 80942007i64))
    } else if n == 7746 {
        Some(("ZWL007746"@, "Trivandrum Tvm Central"@, 8490977i64, 76969250i64))
    } else if n == 7801 {
        Some(("ZWL007801"@, "Pune Pimpri"@, 18625381i64, 73791194i64))
    } else if n == 7830 {
        Some(("ZWL007830"@, "Kolkata Garia"@, 22469249i64, 88382261i64))
    } else if n == 7840 {
        Some(("ZWL007840"@, "Delhi NCR Sector 14"@, 28471738i64, 77045472i64))
    } else if n == 7889 {
        Some(("ZWL007889"@, "Mumbai Bhandup West"@, 19151889i64, 72934553i64))
    } else if n == 7895 {
        Some(("ZWL007895"@, "Pune New Sangvi, Pune"@, 18578959i64, 73823437i64))
    } else if n == 7903 {
        Some(("ZWL007903"@, "Delhi NCR Janakpuri"@, 28623431i64, 77097814i64))
    } else if n == 7925 {
        Some(("ZWL007925"@, "Pune Wanowrie-Kondhwa"@, 18477085i64, 73900966i64))
    } else if n == 7934 {
        Some(("ZWL007934"@, "Kolkata Salt Lake 1"@, 22573829i64, 88412814i64))
    } else if n == 7951 {
        Some(("ZWL007951"@, "Surat Athwa"@, 21168804i64, 72803931i64))
    } else if n == 7966 {
        Some(("ZWL007966"@, "Kolkata Uttarpara"@, 22692420i64, 88342900i64))
    } else if n == 8047 {
        Some(("ZWL008047"@, "Jammu OLD JAMMU, Jammu"@, 32727614i64, 74856395i64))
    } else if n == 8105 {
        Some(("ZWL008105"@, "Bengaluru Jayanagar"@, 12944441i64, 77581003i64))
    } else if n == 8120 {
        Some(("ZWL008120"@, "Kolkata Shrirampur"@, 22735733i64, 88344597i64))
    } else if n == 8134 {
        Some(("ZWL008134"@, "Pune Yerwada"@, 18544659i64, 73869499i64))
    } else if n == 8191 {
        Some(("ZWL008191"@, "Delhi NCR Rangpuri"@, 28533976i64, 77119516i64))
    } else if n == 8198 {
        Some(("ZWL008198"@, "Surat Adajan, Surat"@, 21211151i64, 72793110i64))
    } else if n == 8208 {
        Some(("ZWL008208"@, "Hyderabad Jeedimetla"@, 17495621i64, 78450281i64))
    } else if n == 8219 {
        Some(("ZWL008219"@, "Delhi NCR SUSHANT LOK 1"@, 28467923i64, 77076530i64))
    } else if n == 8225 {
        Some(("ZWL008225"@, "Delhi NCR Sector 25"@, 28484268i64, 77084693i64))
    } else if n == 8232 {
        Some(("ZWL008232"@, "Vadodara Shubhanpura"@, 22321614i64, 73160014i64))
    } else if n == 8249 {
        Some(("ZWL008249"@, "Jaipur Raja Park"@, 26902497i64, 75826544i64))
    } else if n == 8265 {
        Some(("ZWL008265"@, "Coimbatore Ondipudur, Coimbatore"@, 10997670i64, 77042986i64))
    } else if n == 8281 {
        Some(("ZWL008281"@, "Amritsar Rasulpur, Amritsar"@, 31619590i64, 74915049i64))
    } else if n == 8282 {
        Some(("ZWL008282"@, "Nagpur Dharampeth"@, 21131547i64, 79056027i64))
    } else if n == 8293 {
        Some(("ZWL008293"@, "Delhi NCR Dilshad Garden"@, 28684684i64, 77320986i64))
    } else if n == 8297 {
        Some(("ZWL008297"@, "Hyderabad Bachupally"@, 17544887i64, 78359975i64))
    } else if n == 8309 {
        Some(("ZWL008309"@, "Hyderabad Alwal"@, 17508852i64, 78507402i64))
    } else if n == 8317 {
        Some(("ZWL008317"@, "Delhi NCR Raj Nagar, Ghaziabad"@, 28689174i64, 77428976i64))
    } else if n == 8348 {
        Some(("ZWL008348"@, "Mumbai Shirdhon, Mumbai"@, 19195881i64, 73128886i64))
    } else if n == 8360 {
        Some(("ZWL008360"@, "Mumbai Palava Lakeshore,Mumbai"@, 19165716i64, 73105733i64))
    } else if n == 8370 {
        Some(("ZWL008370"@, "Pune Katraj (Pune)"@, 18451394i64, 73847642i64))
    } else if n == 8378 {
        Some(("ZWL008378"@, "Mumbai Sion"@, 19045271i64, 72864631i64))
    } else if n == 8393 {
        Some(("ZWL008393"@, "Kolkata New Town (kolkata)"@, 22588818i64, 88457964i64))
    } else if n == 8401 {
        Some(("ZWL008401"@, "Delhi NCR Sector 52, Gurgaon"@, 28443858i64, 77083991i64))
    } else if n == 8405 {
        Some(("ZWL008405"@, "Delhi NCR Crossing Republik"@, 28635043i64, 77419056i64))
    } else if n == 8426 {
        Some(("ZWL008426"@, "Kolkata Howrah"@, 22604678i64, 88342218i64))
    } else if n == 8438 {
        Some(("ZWL008438"@, "Hyderabad Sivarampalli"@, 17345995i64, 78439283i64))
    } else if n == 8476 {
        Some(("ZWL008476"@, "Delhi NCR Sector 23"@, 28509080i64, 77057138i64))
    } else if n == 8512 {
        Some(("ZWL008512"@, "Hyderabad Mokila, Hyderabad"@, 17436228i64, 78190072i64))
    } else if n == 8519 {
        Some(("ZWL008519"@, "Goa Mapusa, Goa"@, 15599556i64, 73791137i64))
    } else if n == 8548 {
        Some(("ZWL008548"@, "Chennai Mugalivakkam"@, 13014886i64, 80152455i64))
    } else if n == 8550 {
        Some(("ZWL008550"@, "Mumbai Santacruz East"@, 19076131i64, 72858715i64))
    } else if n == 8554 {
        Some(("ZWL008554"@, "Delhi NCR Greater Noida"@, 28456171i64, 77521577i64))
    } else if n == 8585 {
        Some(("ZWL008585"@, "Hyderabad Shamshabad"@, 17257432i64, 78387920i64))
    } else if n == 8599 {
        Some(("ZWL008599"@, "Hyderabad Miyapur"@, 17500034i64, 78342670i64))
    } else if n == 8600 {
        Some(("ZWL008600"@, "Bengaluru Marathahalli"@, 12955103i64, 77696507i64))
    } else if n == 8635 {
        Some(("ZWL008635"@, "Kolkata Alipore"@, 22536626i64, 88331142i64))
    } else if n == 8636 {
        Some(("ZWL008636"@, "Mumbai Nalasopara"@, 19424433i64, 72817134i64))
    } else if n == 8648 {
        Some(("ZWL008648"@, "Delhi NCR Govindpuram"@, 28689317i64, 77486930i64))
    } else if n == 8649 {
        Some(("ZWL008649"@, "Delhi NCR Sez Noida 1"@, 28507448i64, 77410089i64))
    } else if n == 8653 {
        Some(("ZWL008653"@, "Coimbatore RS Puram, Coimbatore"@, 11000355i64, 76941985i64))
    } else if n == 8680 {
        Some(("ZWL008680"@, "Jaipur Vidhyadhar Nagar"@, 26963051i64, 75770166i64))
    } else if n == 8695 {
        Some(("ZWL008695"@, "Raipur Devendra Nagar"@, 21252033i64, 81650070i64))
    } else if n == 8711 {
        Some(("ZWL008711"@, "Mumbai Malad West"@, 19187022i64, 72827076i64))
    } else if n == 8716 {
        Some(("ZWL008716"@, "Delhi NCR Laxmi Nagar"@, 28627366i64, 77279200i64))
    } else if n == 8752 {
        Some(("ZWL008752"@, "Delhi NCR Faridabad Sector 41-50"@, 28460895i64, 77304764i64))
    } else if n == 8753 {
        Some(("ZWL008753"@, "Jammu Gandhi Nagar, Jammu"@, 32704392i64, 74864830i64))
    } else if n == 8755 {
        Some(("ZWL008755"@, "Bhopal Ashoka Garden, Bhopal"@, 23260793i64, 77421525i64))
    } else if n == 8776 {
        Some(("ZWL008776"@, "Hyderabad Begumpet"@, 17442659i64, 78482009i64))
    } else if n == 8791 {
        Some(("ZWL008791"@, "Delhi NCR IMT Manesar"@, 28384492i64, 76941950i64))
    } else if n == 8797 {
        Some(("ZWL008797"@, "Bengaluru Devanahalli, Bangalore"@, 13258381i64, 77716183i64))
    } else if n == 8806 {
        Some(("ZWL008806"@, "Kolkata Salt Lake 2"@, 22583560i64, 88432176i64))
    } else {
        None
    }
}

/// Directory entries with numeric codes 8828 through 9990.
pub open spec fn entry_spec_f(n: int) -> Option<(Seq<char>, Seq<char>, i64, i64)> {
    if n == 8828 {
        Some(("ZWL008828"@, "Kolkata Elgin"@, 22543063i64, 88356096i64))
    } else if n == 8872 {
        Some(("ZWL008872"@, "Raipur Mahaveer Nagar"@, 21210730i64, 81640523i64))
    } else if n == 8874 {
        Some(("ZWL008874"@, "Mumbai Bhayandar West"@, 19257869i64, 72804743i64))
    } else if n == 8876 {
        Some(("ZWL008876"@, "Chennai Avadi"@, 13125301i64, 80069776i64))
    } else if n == 8890 {
        Some(("ZWL008890"@, "Hyderabad Serilingampally"@, 17485245i64, 78313916i64))
    } else if n == 8897 {
        Some(("ZWL008897"@, "Delhi NCR Vikaspuri"@, 28645655i64, 77065922i64))
    } else if n == 8906 {
        Some(("ZWL008906"@, "Bhubaneswar Jagmohan Nagar, Bhubaneswar"@, 20257002i64, 85789371i64))
    } else if n == 8915 {
        Some(("ZWL008915"@, "Jaipur Shastri Nagar"@, 26936514i64, 75797054i64))
    } else if n == 8921 {
        Some(("ZWL008921"@, "Pune Sadashiv Peth"@, 18511357i64, 73856996i64))
    } else if n == 8938 {
        Some(("ZWL008938"@, "Vadodara Diwalipura"@, 22302691i64, 73156120i64))
    } else if n == 8940 {
        Some(("ZWL008940"@, "Pune Ghorpadi (Pune)"@, 18519767i64, 73897269i64))
    } else if n == 8963 {
        Some(("ZWL008963"@, "Delhi NCR Safdarjung Enclave"@, 28562608i64, 77191457i64))
    } else if n == 8975 {
        Some(("ZWL008975"@, "Mumbai Andheri East"@, 19108639i64, 72874437i64))
    } else if n == 8977 {
        Some(("ZWL008977"@, "Mumbai Kamothe"@, 19023359i64, 73091814i64))
    } else if n == 8978 {
        Some(("ZWL008978"@, "Delhi NCR Kamla Nagar"@, 28676018i64, 77208446i64))
    } else if n == 8983 {
        Some(("ZWL008983"@, "Pune Baner (Pune)"@, 18567954i64, 73783475i64))
    } else if n == 8991 {
        Some(("ZWL008991"@, "Kolkata Chinsurah, Kolkata"@, 22933551i64, 88398649i64))
    } else if n == 8996 {
        Some(("ZWL008996"@, "Chennai Perambur"@, 13121741i64, 80225058i64))
    } else if n == 9008 {
        Some(("ZWL009008"@, "Delhi NCR Sector 12 (Noida)"@, 28599952i64, 77343188i64))
    } else if n == 9021 {
        Some(("ZWL009021"@, "Ludhiana Sector 32, Ludhiana"@, 30895881i64, 75906050i64))
    } else if n == 9022 {
        Some(("ZWL009022"@, "Kolkata Behala"@, 22488571i64, 88306630i64))
    } else if n == 9032 {
        Some(("ZWL009032"@, "Delhi NCR New Industrial Town"@, 28375702i64, 77299442i64))
    } else if n == 9091 {
        Some(("ZWL009091"@, "Lucknow Chowk"@, 26873686i64, 80894502i64))
    } else if n == 9096 {
        Some(("ZWL009096"@, "Delhi NCR Chhatarpur"@, 28497203i64, 77171629i64))
    } else if n == 9157 {
        Some(("ZWL009157"@, "Pune Koregaon Park (Pune)"@, 18535326i64, 73883976i64))
    } else if n == 9167 {
        Some(("ZWL009167"@, "Mumbai Byculla"@, 18974283i64, 72833712i64))
    } else if n == 9177 {
        Some(("ZWL009177"@, "Lucknow Jankipuram"@, 26926427i64, 80936884i64))
    } else if n == 9182 {
        Some(("ZWL009182"@, "Ahmedabad Maninagar"@, 22985307i64, 72610322i64))
    } else if n == 9194 {
        Some(("ZWL009194"@, "Kolkata Kankurgachi"@, 22573467i64, 88391666i64))
    } else if n == 9212 {
        Some(("ZWL009212"@, "Bengaluru Nagavara"@, 13048370i64, 77625534i64))
    } else if n == 9229 {
        Some(("ZWL009229"@, "Bengaluru Aavalahalli"@, 13034488i64, 77712241i64))
    } else if n == 9252 {
        Some(("ZWL009252"@, "Mumbai Chembur"@, 19049840i64, 72907847i64))
    } else if n == 9257 {
        Some(("ZWL009257"@, "Kolkata Bow Barracks"@, 22565476i64, 88360918i64))
    } else if n == 9286 {
        Some(("ZWL009286"@, "Jaipur Jagatpura"@, 26825942i64, 75851086i64))
    } else if n == 9293 {
        Some(("ZWL009293"@, "Delhi NCR Nangloi"@, 28659524i64, 77060800i64))
    } else if n == 9335 {
        Some(("ZWL009335"@, "Delhi NCR Faridabad Sector 1-11"@, 28365131i64, 77326157i64))
    } else if n == 9338 {
        Some(("ZWL009338"@, "Mumbai Vile Parle West"@, 19109560i64, 72832194i64))
    } else if n == 9339 {
        Some(("ZWL009339"@, "Delhi NCR Karol Bagh"@, 28647924i64, 77190463i64))
    } else if n == 9343 {
        Some(("ZWL009343"@, "Trivandrum Kazhakoottam, Thiruvananthapuram"@, 8575170i64, 76904888i64))
    } else if n == 9360 {
        Some(("ZWL009360"@, "Mumbai Ulwe, Mumbai"@, 18974217i64, 73024914i64))
    } else if n == 9406 {
        Some(("ZWL009406"@, "Chandigarh Sector 22 (Chandigarh)"@, 30735307i64, 76774912i64))
    } else if n == 9407 {
        Some(("ZWL009407"@, "Guwahati North Guwahati, Guwahati"@, 26196471i64, 91684788i64))
    } else if n == 9428 {
        Some(("ZWL009428"@, "Bhopal Shahpura,Bhopal"@, 23176545i64, 77418255i64))
    } else if n == 9430 {
        Some(("ZWL009430"@, "Chandigarh VIP Road, Zirakpur"@, 30656048i64, 76823298i64))
    } else if n == 9458 {
        Some(("ZWL009458"@, "Jaipur Shyam Nagar"@, 26887617i64, 75756174i64))
    } else if n == 9478 {
        Some(("ZWL009478"@, "Mangalore Thokkattu, Mangalore"@, 12820460i64, 74865765i64))
    } else if n == 9487 {
        Some(("ZWL009487"@, "Kochi Perumbavoor,Kochi"@, 10117563i64, 76460320i64))
    } else if n == 9519 {
        Some(("ZWL009519"@, "Hyderabad Moosapet"@, 17453292i64, 78421126i64))
    } else if n == 9521 {
        Some(("ZWL009521"@, "9 nd Panchkula"@, 30694507i64, 76849604i64))
    } else if n == 9537 {
        Some(("ZWL009537"@, "Mumbai Kopar Khairane (Navi Mumbai)"@, 19113909i64, 73012598i64))
    } else if n == 9569 {
        Some(("ZWL009569"@, "Jaipur Pink City"@, 26929588i64, 75823855i64))
    } else if n == 9572 {
        Some(("ZWL009572"@, "Bhubaneswar Chandrasekharpur, Bhubaneswar"@, 20317124i64, 85806992i64))
    } else if n == 9577 {
        Some(("ZWL009577"@, "Pune Nanded-Nahre"@, 18453179i64, 73811077i64))
    } else if n == 9595 {
        Some(("ZWL009595"@, "Coimbatore Ganapathypudur, Coimbatore"@, 11042698i64, 76984477i64))
    } else if n == 9602 {
        Some(("ZWL009602"@, "Pune Kothrud (Pune)"@, 18504984i64, 73811587i64))
    } else if n == 9625 {
        Some(("ZWL009625"@, "Pune Kalyani Nagar (Pune)"@, 18546538i64, 73906594i64))
    } else if n == 9638 {
        Some(("ZWL009638"@, "Delhi NCR Sector 24"@, 28497419i64, 77090980i64))
    } else if n == 9648 {
        Some(("ZWL009648"@, "Delhi NCR Sector 63 (Noida)"@, 28621672i64, 77386474i64))
    } else if n == 9668 {
        Some(("ZWL009668"@, "Coimbatore Saibaba Colony, Coimbatore"@, 11032946i64, 76944253i64))
    } else if n == 9671 {
        Some(("ZWL009671"@, "Pune Manas Lake, Pune"@, 18491382i64, 73748953i64))
    } else if n == 9682 {
        Some(("ZWL009682"@, "Lucknow Rajajipuram"@, 26842055i64, 80873868i64))
    } else if n == 9706 {
        Some(("ZWL009706"@, "Delhi NCR Sector 27"@, 28465260i64, 77085742i64))
    } else if n == 9712 {
        Some(("ZWL009712"@, "Hyderabad Dilsukhnagar"@, 17370431i64, 78536184i64))
    } else if n == 9713 {
        Some(("ZWL009713"@, "Vadodara Nizampura"@, 22334731i64, 73176306i64))
    } else if n == 9719 {
        Some(("ZWL009719"@, "Hyderabad JNTU"@, 17485166i64, 78389775i64))
    } else if n == 9728 {
        Some(("ZWL009728"@, "Delhi NCR Gwal Pahari"@, 28435122i64, 77136308i64))
    } else if n == 9757 {
        Some(("ZWL009757"@, "Mumbai Kharghar (Navi Mumbai)"@, 19069735i64, 73055883i64))
    } else if n == 9782 {
        Some(("ZWL009782"@, "Nagpur Hanuman Nagar"@, 21131152i64, 79100974i64))
    } else if n == 9826 {
        Some(("ZWL009826"@, "Mumbai Dombivli"@, 19210229i64, 73102272i64))
    } else if n == 9834 {
        Some(("ZWL009834"@, "Delhi NCR Malviya Nagar"@, 28536048i64, 77213453i64))
    } else if n == 9852 {
        Some(("ZWL009852"@, "Delhi NCR Sector 2 (Noida)"@, 28581459i64, 77316720i64))
    } else if n == 9874 {
        Some(("ZWL009874"@, "Pune Pashan (Pune)"@, 18527587i64, 73789459i64))
    } else if n == 9894 {
        Some(("ZWL009894"@, "Chandigarh Gillco, Chandigarh"@, 30736526i64, 76654293i64))
    } else if n == 9896 {
        Some(("ZWL009896"@, "Raipur Purena, Raipur"@, 21235636i64, 81692460i64))
    } else if n == 9897 {
        Some(("ZWL009897"@, "Chennai Minjur, Chennai"@, 13282298i64, 80266616i64))
    } else if n == 9921 {
        Some(("ZWL009921"@, "Jalandhar Shastri Nagar, Jalandhar"@, 31323693i64, 75583627i64))
    } else if n == 9925 {
        Some(("ZWL009925"@, "Delhi NCR Ghitorni"@, 28486412i64, 77125366i64))
    } else if n == 9959 {
        Some(("ZWL009959"@, "Visakhapatnam Madhurawada"@, 17789823i64, 83373031i64))
    } else if n == 9990 {
        Some(("ZWL009990"@, "Ahmedabad Bodakdev"@, 23055398i64, 72491724i64))
    } else {
        None
    }
}

/// The executable arms for numeric codes 1036 through 2503.
fn lookup_a(n: u32) -> (r: Option<(&'static str, &'static str, i64, i64)>)
    ensures
        entry_option_model(r) == entry_spec_a(n as int),
{
    match n {
        1036 => Some(("ZWL001036", "Delhi NCR Shalimar Bagh", 28720312i64, 77164849i64)),
        1038 => Some(("ZWL001038", "Raipur Mowa, Raipur", 21272467i64, 81671100i64)),
        1039 => Some(("ZWL001039", "Kolkata Santoshpur", 22502107i64, 88388897i64)),
        1041 => Some(("ZWL001041", "Nagpur Manish Nagar", 21091663i64, 79072458i64)),
        1058 => Some(("ZWL001058", "Mumbai Ghatkopar West, Mumbai", 19096740i64, 72904562i64)),
        1073 => Some(("ZWL001073", "Delhi NCR Sector 10, Gurgaon", 28436077i64, 76996757i64)),
        1077 => Some(("ZWL001077", "Jalandhar Paragpur, Jalandhar", 31285004i64, 75648457i64)),
        1089 => Some(("ZWL001089", "Mumbai Borivali West", 19229714i64, 72839710i64)),
        1112 => Some(("ZWL001112", "Delhi NCR Mayur Vihar Phase 1", 28609961i64, 77296133i64)),
        1141 => Some(("ZWL001141", "Chennai Navallur", 12841923i64, 80209025i64)),
        1156 => Some(("ZWL001156", "Bengaluru Koramangala", 12933756i64, 77625825i64)),
        1163 => Some(("ZWL001163", "Ludhiana Model Town, Ludhiana", 30881060i64, 75875309i64)),
        1164 => Some(("ZWL001164", "Mumbai Panvel", 18998845i64, 73108933i64)),
        1186 => Some(("ZWL001186", "Delhi NCR South Extension I", 28578498i64, 77223627i64)),
        1196 => Some(("ZWL001196", "Bengaluru HSR Layout", 12908482i64, 77641773i64)),
        1210 => Some(("ZWL001210", "Chennai Alwarpet", 13032366i64, 80257625i64)),
        1267 => Some(("ZWL001267", "Delhi NCR Hauz Khas", 28551132i64, 77211401i64)),
        1273 => Some(("ZWL001273", "Bengaluru Indiranagar", 12952636i64, 77653059i64)),
        1274 => Some(("ZWL001274", "Mumbai Badlapur, Mumbai", 19174156i64, 73225767i64)),
        1279 => Some(("ZWL001279", "Coimbatore Sitra, and Singanallur, Coimbatore", 11042569i64, 77054996i64)),
        1319 => Some(("ZWL001319", "Delhi NCR Ashok Vihar, Delhi", 28684453i64, 77174418i64)),
        1334 => Some(("ZWL001334", "Mumbai Vileparle East", 19098430i64, 72864947i64)),
        1337 => Some(("ZWL001337", "Hyderabad Uppal", 17403149i64, 78554106i64)),
        1344 => Some(("ZWL001344", "Mumbai Virar", 19461784i64, 72799199i64)),
        1362 => Some(("ZWL001362", "Hyderabad Gachibowli", 17452114i64, 78351486i64)),
        1398 => Some(("ZWL001398", "Chennai Redhills", 13191443i64, 80181225i64)),
        1404 => Some(("ZWL001404", "Delhi NCR Rajinder Nagar", 28640732i64, 77182900i64)),
        1410 => Some(("ZWL001410", "Mumbai Airoli", 19170339i64, 72995114i64)),
        1412 => Some(("ZWL001412", "Delhi NCR Faridabad Sector 12-15", 28394334i64, 77324016i64)),
        1438 => Some(("ZWL001438", "Nagpur Sadar", 21171681i64, 79072065i64)),
        1466 => Some(("ZWL001466", "Visakhapatnam NAD, Vizag", 17749616i64, 83230677i64)),
        1472 => Some(("ZWL001472", "Pune Kharadi", 18552390i64, 73941901i64)),
        1499 => Some(("ZWL001499", "Kolkata South Dum Dum", 22621570i64, 88408915i64)),
        1500 => Some(("ZWL001500", "Lucknow Mahanagar", 26886387i64, 80960641i64)),
        1516 => Some(("ZWL001516", "Chennai T Nagar", 13026256i64, 80228120i64)),
        1549 => Some(("ZWL001549", "Delhi NCR Sector 62 (Noida)", 28611088i64, 77369652i64)),
        1579 => Some(("ZWL001579", "Hyderabad Malakpet", 17371621i64, 78502672i64)),
        1584 => Some(("ZWL001584", "Kolkata Tangra", 22555059i64, 88388175i64)),
        1624 => Some(("ZWL001624", "Jalandhar Basti Nau, Jalandhar", 31327456i64, 75549901i64)),
        1627 => Some(("ZWL001627", "Pune Sus, Pune", 18564293i64, 73753879i64)),
        1663 => Some(("ZWL001663", "Delhi NCR Uttam Nagar", 28616774i64, 77057136i64)),
        1687 => Some(("ZWL001687", "Hyderabad Patancheru, Hyderabad", 17542613i64, 78276529i64)),
        1701 => Some(("ZWL001701", "Chennai Tambaram", 12934834i64, 80101824i64)),
        1750 => Some(("ZWL001750", "Jaipur Vaishali Nagar", 26909885i64, 75739394i64)),
        1752 => Some(("ZWL001752", "Delhi NCR Sector 18 (Noida)", 28568937i64, 77324414i64)),
        1758 => Some(("ZWL001758", "Delhi NCR Vaishali, Ghaziabad", 28649375i64, 77336609i64)),
        1764 => Some(("ZWL001764", "Mumbai Marine lines", 18952178i64, 72825198i64)),
        1778 => Some(("ZWL001778", "Pune Dhanori", 18588936i64, 73907711i64)),
        1780 => Some(("ZWL001780", "Amritsar Himatpura, Amritsar", 31608999i64, 74863051i64)),
        1822 => Some(("ZWL001822", "Hyderabad Amberpet", 17407658i64, 78521703i64)),
        1823 => Some(("ZWL001823", "Bhubaneswar Lakshmi Sagar, Bhubneshwar", 20266492i64, 85851166i64)),
        1898 => Some(("ZWL001898", "Ahmedabad Nikol", 23077071i64, 72637566i64)),
        1933 => Some(("ZWL001933", "Delhi NCR Pitampura", 28688724i64, 77138225i64)),
        1934 => Some(("ZWL001934", "Chandigarh Manimajra (Chandigarh)", 30722848i64, 76835395i64)),
        1959 => Some(("ZWL001959", "Ahmedabad Vastrapur", 23042513i64, 72524312i64)),
        1962 => Some(("ZWL001962", "Bengaluru MG Road", 12982689i64, 77608075i64)),
        1963 => Some(("ZWL001963", "Pune Chakan", 18752436i64, 73837484i64)),
        1981 => Some(("ZWL001981", "Kochi Kalamassery", 10046034i64, 76308117i64)),
        2056 => Some(("ZWL002056", "Mumbai Hiranandani Estate", 19267411i64, 72967074i64)),
        2059 => Some(("ZWL002059", "Mumbai Ulhasnagar (Mumbai)", 19224136i64, 73169340i64)),
        2067 => Some(("ZWL002067", "Delhi NCR Chittaranjan Park", 28537530i64, 77249070i64)),
        2072 => Some(("ZWL002072", "Delhi NCR Sector 76(Noida)", 28570828i64, 77390429i64)),
        2073 => Some(("ZWL002073", "Amritsar White Avenue, Amritsar", 31657377i64, 74889594i64)),
        2074 => Some(("ZWL002074", "Mumbai Naupada", 19188451i64, 72968001i64)),
        2088 => Some(("ZWL002088", "Hyderabad Attapur", 17380875i64, 78415717i64)),
        2091 => Some(("ZWL002091", "Delhi NCR Sector 49", 28408012i64, 77050064i64)),
        2105 => Some(("ZWL002105", "Guwahati Paltan-Bazar, Guwahati", 26183358i64, 91752480i64)),
        2106 => Some(("ZWL002106", "Vijayawada Gollapudi, Vijayawada", 16541337i64, 80585061i64)),
        2137 => Some(("ZWL002137", "Goa Upper panaji, Goa", 15460913i64, 73835391i64)),
        2142 => Some(("ZWL002142", "Goa Margao, Goa", 15231363i64, 73997689i64)),
        2146 => Some(("ZWL002146", "Delhi NCR Mayur Vihar Phase III", 28606000i64, 77323675i64)),
        2147 => Some(("ZWL002147", "Coimbatore Saravanampatty", 11070812i64, 76998053i64)),
        2150 => Some(("ZWL002150", "Goa Verna, Goa", 15380640i64, 73909304i64)),
        2155 => Some(("ZWL002155", "Surat City Light, Surat", 21159272i64, 72791465i64)),
        2162 => Some(("ZWL002162", "Hyderabad LB Nagar", 17345727i64, 78557062i64)),
        2179 => Some(("ZWL002179", "Delhi NCR Tigaon", 28417120i64, 77412569i64)),
        2205 => Some(("ZWL002205", "Mumbai Fort", 18940613i64, 72834235i64)),
        2208 => Some(("ZWL002208", "Pune Sinhagad Road(Pune)", 18477264i64, 73826437i64)),
        2223 => Some(("ZWL002223", "Trivandrum Nemom, Thiruvananthapuram", 8430376i64, 77027424i64)),
        2250 => Some(("ZWL002250", "Ahmedabad Infocity, Gandhinagar", 23177762i64, 72636221i64)),
        2253 => Some(("ZWL002253", "Pune Bhosari (Pune)", 18643893i64, 73858653i64)),
        2273 => Some(("ZWL002273", "Lucknow Gomti Nagar", 26850582i64, 80999875i64)),
        2292 => Some(("ZWL002292", "Bengaluru Sarjapur road", 12900225i64, 77697451i64)),
        2302 => Some(("ZWL002302", "Ahmedabad Shahibag", 23058607i64, 72592212i64)),
        2303 => Some(("ZWL002303", "Chandigarh Sector 20, Panchkula", 30667002i64, 76860170i64)),
        2312 => Some(("ZWL002312", "Kolkata Baguihati", 22614990i64, 88426184i64)),
        2327 => Some(("ZWL002327", "Kochi Vypin, Kochi", 10019731i64, 76245595i64)),
        2331 => Some(("ZWL002331", "Lucknow Alambagh", 26810769i64, 80904864i64)),
        2344 => Some(("ZWL002344", "Jalandhar Gurdev Nagar, Jalandhar", 31347368i64, 75566556i64)),
        2354 => Some(("ZWL002354", "Vadodara Waghodia", 22300216i64, 73229259i64)),
        2422 => Some(("ZWL002422", "Pune Shivaji Nagar (Pune)", 18526724i64, 73841658i64)),
        2433 => Some(("ZWL002433", "Hyderabad Sainikpuri", 17489079i64, 78558910i64)),
        2446 => Some(("ZWL002446", "Vadodara Manjalpur, Vadodara", 22257070i64, 73191150i64)),
        2458 => Some(("ZWL002458", "Mysore Central Mysore", 12326689i64, 76633539i64)),
        2475 => Some(("ZWL002475", "Vadodara Alkapuri", 22313140i64, 73172760i64)),
        2488 => Some(("ZWL002488", "Kolkata Barabazar Market", 22574220i64, 88366682i64)),
        2490 => Some(("ZWL002490", "Delhi NCR Sector 84", 28395433i64, 76967436i64)),
        2491 => Some(("ZWL002491", "Guwahati Changsari, Guwahati", 26262376i64, 91694879i64)),
        2495 => Some(("ZWL002495", "Kolkata Bansdroni", 22472208i64, 88357875i64)),
        2503 => Some(("ZWL002503", "Ahmedabad Chandkheda", 23117204i64, 72607123i64)),
        _ => None,
    }
}

/// The executable arms for numeric codes 2556 through 4196.
fn lookup_b(n: u32) -> (r: Option<(&'static str, &'static str, i64, i64)>)
    ensures
        entry_option_model(r) == entry_spec_b(n as int),
{
    match n {
        2556 => Some(("ZWL002556", "Mumbai Titwala, Mumbai", 19292555i64, 73205899i64)),
        2558 => Some(("ZWL002558", "Mumbai Palghar, Mumbai", 19700631i64, 72763031i64)),
        2615 => Some(("ZWL002615", "Bhopal TT Nagar, Bhopal", 23223600i64, 77392134i64)),
        2662 => Some(("ZWL002662", "Delhi NCR Vasundhara", 28665225i64, 77366782i64)),
        2686 => Some(("ZWL002686", "Mumbai Wadala", 19017538i64, 72867138i64)),
        2687 => Some(("ZWL002687", "Jammu Channi Himmat, Jammu", 32690740i64, 74886902i64)),
        2703 => Some(("ZWL002703", "Coimbatore Racecourse, Coimbatore", 10999272i64, 76975662i64)),
        2736 => Some(("ZWL002736", "Bengaluru RT Nagar", 13021267i64, 77601234i64)),
        2742 => Some(("ZWL002742", "Mumbai Mumbra, Mumbai", 19172636i64, 73023715i64)),
        2751 => Some(("ZWL002751", "Jaipur Malviya Nagar", 26854191i64, 75810798i64)),
        2771 => Some(("ZWL002771", "Surat Varaccha, Surat", 21210937i64, 72857374i64)),
        2821 => Some(("ZWL002821", "Bhubaneswar Kharabela Nagar, Bhubaneswar", 20271584i64, 85840940i64)),
        2865 => Some(("ZWL002865", "Mumbai Kalyan,West,Mumbai", 19255127i64, 73128176i64)),
        2872 => Some(("ZWL002872", "Bhopal MP Nagar,Bhopal", 23227641i64, 77447330i64)),
        2882 => Some(("ZWL002882", "Bengaluru Kadugodi", 13007511i64, 77763209i64)),
        2908 => Some(("ZWL002908", "Delhi NCR Sector 1, Noida", 28573663i64, 77415427i64)),
        2918 => Some(("ZWL002918", "Kolkata Ballygunge", 22532686i64, 88362677i64)),
        2921 => Some(("ZWL002921", "Mumbai Mulund West", 19170765i64, 72942239i64)),
        2931 => Some(("ZWL002931", "Kolkata Kestopur", 22597524i64, 88431114i64)),
        2986 => Some(("ZWL002986", "Kochi Nedumbassery,Kochi", 10178008i64, 76386636i64)),
        3014 => Some(("ZWL003014", "Pune Bopkhel, Pune", 18586306i64, 73859602i64)),
        3024 => Some(("ZWL003024", "Visakhapatnam Gajuwaka", 17681004i64, 83207459i64)),
        3027 => Some(("ZWL003027", "Hyderabad Ameerpet", 17434737i64, 78446618i64)),
        3030 => Some(("ZWL003030", "Lucknow Telibagh, Lucknow", 26776664i64, 80936755i64)),
        3043 => Some(("ZWL003043", "Delhi NCR Sector 73 Z Kitchen", 28580105i64, 77385436i64)),
        3075 => Some(("ZWL003075", "Delhi NCR Sector 66", 28380856i64, 77062751i64)),
        3077 => Some(("ZWL003077", "Delhi NCR Green Park", 28562981i64, 77209729i64)),
        3084 => Some(("ZWL003084", "Bhubaneswar Kalinga Nagar, Bhubneshwar", 20277934i64, 85773884i64)),
        3093 => Some(("ZWL003093", "Chandigarh Sector 35 (Chandigarh)", 30727290i64, 76756632i64)),
        3099 => Some(("ZWL003099", "Pune Nimgaon, Pune", 18794589i64, 73910016i64)),
        3118 => Some(("ZWL003118", "Delhi NCR Sector 53", 28442743i64, 77104379i64)),
        3119 => Some(("ZWL003119", "Ludhiana Dugri,Ludhiana", 30856247i64, 75843129i64)),
        3128 => Some(("ZWL003128", "Kolkata Shibpur", 22578477i64, 88315675i64)),
        3133 => Some(("ZWL003133", "Ahmedabad Paldi", 22994998i64, 72557474i64)),
        3159 => Some(("ZWL003159", "Bengaluru Jalahalli", 13031518i64, 77530986i64)),
        3195 => Some(("ZWL003195", "Raipur Shankar Nagar, Raipur", 21251392i64, 81663850i64)),
        3241 => Some(("ZWL003241", "Delhi NCR Sector 56, Gurgaon", 28418235i64, 77101860i64)),
        3259 => Some(("ZWL003259", "Delhi NCR Burari", 28753669i64, 77191037i64)),
        3262 => Some(("ZWL003262", "Chandigarh Sector 70 (Chandigarh)", 30709870i64, 76692050i64)),
        3270 => Some(("ZWL003270", "Bhubaneswar Nayapalli, Bhubneshwar", 20299879i64, 85813518i64)),
        3271 => Some(("ZWL003271", "Kolkata Chandannagar, Kolkata", 22865442i64, 88367339i64)),
        3283 => Some(("ZWL003283", "Hyderabad Himayatnagar", 17402602i64, 78487229i64)),
        3300 => Some(("ZWL003300", "Pune Mundwa, Pune", 18535220i64, 73918549i64)),
        3304 => Some(("ZWL003304", "Ludhiana Ganesh Nagar, Ludhiana", 30917540i64, 75879759i64)),
        3315 => Some(("ZWL003315", "Kolkata Purba Barisha", 22474612i64, 88320775i64)),
        3320 => Some(("ZWL003320", "Lucknow Vasant Kunj, Lucknow", 26877121i64, 80878447i64)),
        3360 => Some(("ZWL003360", "Hyderabad Toli Chowki", 17398121i64, 78421238i64)),
        3362 => Some(("ZWL003362", "Guwahati Azara, Guwahati", 26110966i64, 91602115i64)),
        3370 => Some(("ZWL003370", "Hyderabad Nagole", 17359969i64, 78565724i64)),
        3371 => Some(("ZWL003371", "Lucknow Ashiyana", 26790510i64, 80913855i64)),
        3386 => Some(("ZWL003386", "Pune Dehu Road", 18695874i64, 73740365i64)),
        3387 => Some(("ZWL003387", "Chennai Kilpauk", 13080772i64, 80248018i64)),
        3388 => Some(("ZWL003388", "Kolkata Sinthi, Kolkata", 22627697i64, 88380719i64)),
        3417 => Some(("ZWL003417", "s Mall, Bhopal", 23293081i64, 77396385i64)),
        3425 => Some(("ZWL003425", "Lucknow Hazratganj", 26844819i64, 80940833i64)),
        3444 => Some(("ZWL003444", "Delhi NCR Sector 50", 28418947i64, 77059581i64)),
        3452 => Some(("ZWL003452", "Chennai Medavakkam", 12931197i64, 80182327i64)),
        3455 => Some(("ZWL003455", "Ahmedabad Gota", 23131231i64, 72543606i64)),
        3463 => Some(("ZWL003463", "Bhopal BHEL, Bhopal", 23267602i64, 77474332i64)),
        3467 => Some(("ZWL003467", "Bengaluru Banashankari", 12936787i64, 77556079i64)),
        3496 => Some(("ZWL003496", "Chandigarh Phase 10 Mohali", 30692094i64, 76733846i64)),
        3498 => Some(("ZWL003498", "Pune Camp Area", 18513693i64, 73877293i64)),
        3552 => Some(("ZWL003552", "Delhi NCR Jangpura", 28583630i64, 77246915i64)),
        3591 => Some(("ZWL003591", "Delhi NCR Shahdara", 28688657i64, 77278267i64)),
        3606 => Some(("ZWL003606", "Jaipur Lal Kothi", 26893689i64, 75797800i64)),
        3610 => Some(("ZWL003610", "Delhi NCR Sector 48, Gurgaon", 28416008i64, 77032164i64)),
        3626 => Some(("ZWL003626", "Delhi NCR Faridabad Sector 81-89", 28397247i64, 77345569i64)),
        3633 => Some(("ZWL003633", "Nagpur Gandhibagh", 21146868i64, 79103994i64)),
        3635 => Some(("ZWL003635", "Lucknow Indira Nagar, Lucknow", 26883684i64, 80990290i64)),
        3661 => Some(("ZWL003661", "Coimbatore Gandhipuram, Coimbatore", 11019095i64, 76968472i64)),
        3687 => Some(("ZWL003687", "Kolkata Baghajatin Colony", 22481243i64, 88374932i64)),
        3704 => Some(("ZWL003704", "Jaipur C Scheme", 26916823i64, 75801190i64)),
        3708 => Some(("ZWL003708", "Mumbai Palava", 19168067i64, 73074612i64)),
        3721 => Some(("ZWL003721", "Delhi NCR Sector 57", 28422100i64, 77082740i64)),
        3747 => Some(("ZWL003747", "Ahmedabad Navrangpura", 23038426i64, 72558241i64)),
        3757 => Some(("ZWL003757", "Delhi NCR Vishnu Garden", 28646933i64, 77095064i64)),
        3768 => Some(("ZWL003768", "Kochi Eroor", 9929826i64, 76332369i64)),
        3786 => Some(("ZWL003786", "Kochi Kaloor", 10000143i64, 76298744i64)),
        3794 => Some(("ZWL003794", "Kolkata Jadavpur", 22498720i64, 88362540i64)),
        3813 => Some(("ZWL003813", "Pune Manjri,Pune", 18509232i64, 73978364i64)),
        3817 => Some(("ZWL003817", "Pune Hinjewadi - Phase 1", 18596583i64, 73733312i64)),
        3863 => Some(("ZWL003863", "Jaipur Tonk road 2", 26853567i64, 75794945i64)),
        3882 => Some(("ZWL003882", "Kolkata Liluah", 22635342i64, 88343314i64)),
        3905 => Some(("ZWL003905", "Vijayawada Labbipet, Vijayawada", 16510686i64, 80648812i64)),
        3915 => Some(("ZWL003915", "Kolkata East Kolkata Township", 22512832i64, 88399411i64)),
        3918 => Some(("ZWL003918", "Hyderabad Suraram, Hyderabad", 17559752i64, 78437467i64)),
        3935 => Some(("ZWL003935", "Kolkata Dum Dum", 22656310i64, 88423694i64)),
        3936 => Some(("ZWL003936", "Chandigarh Industrial Area Phase I (Chandigarh)", 30701381i64, 76808231i64)),
        3951 => Some(("ZWL003951", "Kolkata Barrackpore", 22766771i64, 88361552i64)),
        3967 => Some(("ZWL003967", "Chennai Anna Nagar, Chennai", 13086884i64, 80206602i64)),
        3995 => Some(("ZWL003995", "Mumbai Lower Parel", 19005114i64, 72820143i64)),
        4079 => Some(("ZWL004079", "Hyderabad Banjara Hills", 17419238i64, 78438474i64)),
        4097 => Some(("ZWL004097", "Vadodara Fatehgunj", 22315398i64, 73199769i64)),
        4098 => Some(("ZWL004098", "Bhubaneswar Khandagiri, Bhubneshwar", 20246979i64, 85766384i64)),
        4101 => Some(("ZWL004101", "Chandigarh Sector 46 (Chandigarh)", 30705920i64, 76762310i64)),
        4138 => Some(("ZWL004138", "Kolkata Shyam Bazar", 22594302i64, 88377284i64)),
        4159 => Some(("ZWL004159", "Delhi NCR Sector 51", 28430042i64, 77065213i64)),
        4164 => Some(("ZWL004164", "Bengaluru Bellandur", 12936225i64, 77665059i64)),
        4189 => Some(("ZWL004189", "Mumbai Kurla West", 19079972i64, 72881537i64)),
        4196 => Some(("ZWL004196", "Chandigarh VR Mall", 30730066i64, 76684242i64)),
        _ => None,
    }
}

/// The executable arms for numeric codes 4233 through 5729.
fn lookup_c(n: u32) -> (r: Option<(&'static str, &'static str, i64, i64)>)
    ensures
        entry_option_model(r) == entry_spec_c(n as int),
{
    match n {
        4233 => Some(("ZWL004233", "Chennai Sholinganallur", 12921608i64, 80233727i64)),
        4273 => Some(("ZWL004273", "Kochi North Paravur, Kochi", 10162441i64, 76216317i64)),
        4297 => Some(("ZWL004297", "Chennai Pallavaram", 12973055i64, 80151271i64)),
        4310 => Some(("ZWL004310", "Raipur Samta Colony, Raipur", 21243164i64, 81621252i64)),
        4311 => Some(("ZWL004311", "Pune Magarpatta", 18519482i64, 73934360i64)),
        4322 => Some(("ZWL004322", "Kolkata Kalyani 1, Kolkata", 22983813i64, 88427417i64)),
        4339 => Some(("ZWL004339", "Pune Talegaon Dabhade", 18738724i64, 73675701i64)),
        4341 => Some(("ZWL004341", "Bengaluru Brookefields", 12967420i64, 77717851i64)),
        4408 => Some(("ZWL004408", "Coimbatore Kunniamuthur, Coimbatore", 10937589i64, 76933705i64)),
        4415 => Some(("ZWL004415", "Ahmedabad Naranpura", 23072018i64, 72573161i64)),
        4428 => Some(("ZWL004428", "Vijayawada Gunadala, Vijayawada", 16515748i64, 80690025i64)),
        4431 => Some(("ZWL004431", "Chennai Vadapalani", 13065160i64, 80207917i64)),
        4436 => Some(("ZWL004436", "Lucknow Arjunganj", 26794554i64, 80999112i64)),
        4439 => Some(("ZWL004439", "Vadodara Akota", 22298674i64, 73178672i64)),
        4452 => Some(("ZWL004452", "Goa Calangute, Goa", 15532704i64, 73762608i64)),
        4455 => Some(("ZWL004455", "Delhi NCR Sector 28", 28473457i64, 77087532i64)),
        4477 => Some(("ZWL004477", "Delhi NCR GK II", 28533936i64, 77243800i64)),
        4494 => Some(("ZWL004494", "Mumbai Ghatkopar East, Mumbai", 19080794i64, 72922280i64)),
        4513 => Some(("ZWL004513", "Pune Keshavnagar, Pune", 18537273i64, 73944521i64)),
        4523 => Some(("ZWL004523", "Pune", 18600897i64, 73798441i64)),
        4533 => Some(("ZWL004533", "Delhi NCR Karkardooma, Delhi", 28656829i64, 77310553i64)),
        4535 => Some(("ZWL004535", "Delhi NCR Patel Nagar, Delhi", 28652848i64, 77167909i64)),
        4575 => Some(("ZWL004575", "Pune Wagholi", 18579310i64, 73972122i64)),
        4590 => Some(("ZWL004590", "Amritsar Ranjit Avenue, Amritsar", 31666773i64, 74850200i64)),
        4591 => Some(("ZWL004591", "Kochi Fort Kochi", 9931564i64, 76268065i64)),
        4621 => Some(("ZWL004621", "Goa Vasco, Goa", 15387592i64, 73829979i64)),
        4665 => Some(("ZWL004665", "Hyderabad Narayanguda", 17392120i64, 78494443i64)),
        4691 => Some(("ZWL004691", "Kochi Ambalamugal", 9980241i64, 76397987i64)),
        4692 => Some(("ZWL004692", "Mumbai Dadar West", 19021199i64, 72835378i64)),
        4713 => Some(("ZWL004713", "Jalandhar Rama Mandi, Jalandhar", 31314281i64, 75617635i64)),
        4716 => Some(("ZWL004716", "Chandigarh Sector 59 (Chandigarh)", 30725954i64, 76716657i64)),
        4722 => Some(("ZWL004722", "Kolkata Kasba", 22521693i64, 88389844i64)),
        4747 => Some(("ZWL004747", "Hyderabad Q City, Hyderabad", 17421788i64, 78318868i64)),
        4749 => Some(("ZWL004749", "Mumbai Santacruz West", 19082610i64, 72835608i64)),
        4755 => Some(("ZWL004755", "Visakhapatnam Dwaraka Nagar", 17739116i64, 83324672i64)),
        4759 => Some(("ZWL004759", "Delhi NCR Gaur city, Ghaziabad", 28607703i64, 77434385i64)),
        4763 => Some(("ZWL004763", "Guwahati Dharapur, Guwahati", 26134004i64, 91623895i64)),
        4767 => Some(("ZWL004767", "Hyderabad Karkhana", 17467142i64, 78496696i64)),
        4789 => Some(("ZWL004789", "Delhi NCR Sector 18", 28495291i64, 77069729i64)),
        4800 => Some(("ZWL004800", "Delhi NCR Kalkaji", 28529029i64, 77258939i64)),
        4802 => Some(("ZWL004802", "Hyderabad Madhapur", 17441185i64, 78398416i64)),
        4803 => Some(("ZWL004803", "Delhi NCR Sector 100 (Noida)", 28547583i64, 77370951i64)),
        4821 => Some(("ZWL004821", "Mumbai Boisar, Mumbai", 19804797i64, 72745805i64)),
        4882 => Some(("ZWL004882", "Chennai Urapakkam", 12878957i64, 80070307i64)),
        4900 => Some(("ZWL004900", "Bengaluru Rajarajeshwari Nagar", 12918637i64, 77505467i64)),
        4924 => Some(("ZWL004924", "Bengaluru Bannerghatta Road, Bangalore", 12891397i64, 77608176i64)),
        4925 => Some(("ZWL004925", "Kolkata Rajarhat", 22621505i64, 88446915i64)),
        4927 => Some(("ZWL004927", "Pune Aundh (Pune)", 18559795i64, 73807123i64)),
        4934 => Some(("ZWL004934", "Mumbai Kandivali West", 19212156i64, 72828850i64)),
        4962 => Some(("ZWL004962", "Pune Hinjewadi - Phase 2", 18585004i64, 73706319i64)),
        4971 => Some(("ZWL004971", "Mumbai Mulund East", 19154253i64, 72962493i64)),
        4978 => Some(("ZWL004978", "Lucknow Husainganj", 26836970i64, 80926110i64)),
        5000 => Some(("ZWL005000", "Mumbai Goregaon West", 19162722i64, 72841610i64)),
        5077 => Some(("ZWL005077", "Delhi NCR Rohini", 28723712i64, 77104596i64)),
        5080 => Some(("ZWL005080", "Jaipur Sodala", 26904751i64, 75777608i64)),
        5082 => Some(("ZWL005082", "Jaipur Mansarovar-2", 26844258i64, 75768570i64)),
        5087 => Some(("ZWL005087", "Delhi NCR Palam Vihar, Gurgaon", 28508782i64, 77033506i64)),
        5088 => Some(("ZWL005088", "Pune Yewalewadi, Pune", 18439804i64, 73902433i64)),
        5093 => Some(("ZWL005093", "Goa Ponda, Goa", 15398953i64, 74002377i64)),
        5095 => Some(("ZWL005095", "Surat Udhna, Surat", 21166218i64, 72850231i64)),
        5121 => Some(("ZWL005121", "Kolkata Santragachi", 22621044i64, 88283605i64)),
        5174 => Some(("ZWL005174", "Kolkata Shapoorji", 22567623i64, 88497427i64)),
        5190 => Some(("ZWL005190", "Chennai Nungambakkam", 13060471i64, 80255887i64)),
        5206 => Some(("ZWL005206", "Bengaluru Sahakaranagar", 13059918i64, 77591344i64)),
        5243 => Some(("ZWL005243", "Delhi NCR Sector 26 (Noida)", 28574404i64, 77334178i64)),
        5244 => Some(("ZWL005244", "Kolkata Park Street area", 22552632i64, 88362888i64)),
        5256 => Some(("ZWL005256", "Ludhiana BRS Nagar, Ludhiana", 30897774i64, 75787544i64)),
        5308 => Some(("ZWL005308", "Vijayawada Governorpet, Vijayawada", 16520989i64, 80636340i64)),
        5319 => Some(("ZWL005319", "Guwahati Maligaon - Jalukbari, Guwahati", 26161285i64, 91689576i64)),
        5320 => Some(("ZWL005320", "Mumbai Colaba", 18919405i64, 72824376i64)),
        5323 => Some(("ZWL005323", "Delhi NCR Mayur Vihar Phase II", 28613695i64, 77302775i64)),
        5340 => Some(("ZWL005340", "Pune", 18599555i64, 73774652i64)),
        5345 => Some(("ZWL005345", "Delhi NCR Paharganj", 28645112i64, 77212824i64)),
        5375 => Some(("ZWL005375", "Bengaluru Vijayanagar", 12973219i64, 77519303i64)),
        5395 => Some(("ZWL005395", "Delhi NCR Munirka", 28554395i64, 77172547i64)),
        5408 => Some(("ZWL005408", "Jalandhar Model Town, Jalandhar", 31299818i64, 75582441i64)),
        5423 => Some(("ZWL005423", "Surat Katargam, Surat", 21231792i64, 72824230i64)),
        5424 => Some(("ZWL005424", "Hyderabad Manikonda", 17405930i64, 78388380i64)),
        5425 => Some(("ZWL005425", "Kochi Aluva, Kochi", 10106615i64, 76348843i64)),
        5428 => Some(("ZWL005428", "Delhi NCR Tilak Nagar", 28641372i64, 77094689i64)),
        5429 => Some(("ZWL005429", "Kolkata Gariahat", 22514492i64, 88362000i64)),
        5435 => Some(("ZWL005435", "Kolkata Baranagar, Kolkata", 22660464i64, 88374255i64)),
        5442 => Some(("ZWL005442", "Mumbai Thane West", 19227309i64, 72972736i64)),
        5468 => Some(("ZWL005468", "Coimbatore Podanur, Coimbatore", 10977206i64, 76981702i64)),
        5470 => Some(("ZWL005470", "Lucknow Chinhat, Lucknow", 26878323i64, 81038299i64)),
        5494 => Some(("ZWL005494", "Hyderabad Tarnaka", 17431829i64, 78550940i64)),
        5520 => Some(("ZWL005520", "Pune Warje (Pune)", 18472703i64, 73788400i64)),
        5530 => Some(("ZWL005530", "Bengaluru JP Nagar", 12893441i64, 77560436i64)),
        5549 => Some(("ZWL005549", "Nagpur Pratap Nagar", 21114916i64, 79051774i64)),
        5555 => Some(("ZWL005555", "Kochi Kakkanad", 10014153i64, 76358626i64)),
        5558 => Some(("ZWL005558", "Kolkata Nimta", 22670256i64, 88413503i64)),
        5568 => Some(("ZWL005568", "Goa Porvorim, Goa", 15535007i64, 73827229i64)),
        5569 => Some(("ZWL005569", "Hyderabad Vanasthali Puram", 17318241i64, 78544989i64)),
        5576 => Some(("ZWL005576", "Bengaluru BIAL Airport Road", 13178996i64, 77630005i64)),
        5626 => Some(("ZWL005626", "Surat New Textile Market, Surat", 21199018i64, 72828239i64)),
        5652 => Some(("ZWL005652", "Bhubaneswar Patia, Bhubneshwar", 20363954i64, 85814321i64)),
        5670 => Some(("ZWL005670", "Delhi NCR Rajouri Garden", 28646438i64, 77122357i64)),
        5697 => Some(("ZWL005697", "Mumbai Bandra East", 19064138i64, 72852737i64)),
        5708 => Some(("ZWL005708", "Guwahati Zoo Tiniali - Christian basti", 26177033i64, 91779799i64)),
        5729 => Some(("ZWL005729", "Delhi NCR NEHRU PLACE", 28555622i64, 77250890i64)),
        _ => None,
    }
}

/// The executable arms for numeric codes 5736 through 7224.
fn lookup_d(n: u32) -> (r: Option<(&'static str, &'static str, i64, i64)>)
    ensures
        entry_option_model(r) == entry_spec_d(n as int),
{
    match n {
        5736 => Some(("ZWL005736", "Delhi NCR Lajpat Nagar", 28565415i64, 77247221i64)),
        5742 => Some(("ZWL005742", "Coimbatore Vadavalli", 11024820i64, 76900648i64)),
        5762 => Some(("ZWL005762", "Delhi NCR Sector 47", 28424524i64, 77050065i64)),
        5764 => Some(("ZWL005764", "Delhi NCR Sarita Vihar", 28531759i64, 77293973i64)),
        5773 => Some(("ZWL005773", "Pune Bibvewadi (Pune)", 18492332i64, 73861939i64)),
        5826 => Some(("ZWL005826", "Amritsar Chheharta, Amritsar", 31633049i64, 74817702i64)),
        5836 => Some(("ZWL005836", "Bhopal Hoshangabad Road, Bhopal", 23168118i64, 77482657i64)),
        5857 => Some(("ZWL005857", "Chennai Mogappair, Chennai", 13080365i64, 80175724i64)),
        5858 => Some(("ZWL005858", "Vijayawada Auto Nagar, Vijayawada", 16487591i64, 80685560i64)),
        5876 => Some(("ZWL005876", "Delhi NCR GK I", 28550911i64, 77235272i64)),
        5878 => Some(("ZWL005878", "Delhi NCR Sector 128", 28526706i64, 77354868i64)),
        5892 => Some(("ZWL005892", "Jammu Barnai, Jammu", 32755253i64, 74825204i64)),
        5919 => Some(("ZWL005919", "Hyderabad Kukatpally", 17495894i64, 78416259i64)),
        5925 => Some(("ZWL005925", "Delhi NCR DLF PHASE 1 (SECTOR 26)", 28477910i64, 77103843i64)),
        5960 => Some(("ZWL005960", "Delhi NCR Ballabhgarh", 28343049i64, 77330317i64)),
        5963 => Some(("ZWL005963", "Hyderabad Masab Tank", 17398217i64, 78462258i64)),
        5971 => Some(("ZWL005971", "Delhi NCR Kirti Nagar", 28654433i64, 77142367i64)),
        5979 => Some(("ZWL005979", "Ahmedabad Science-City Sola", 23087361i64, 72510289i64)),
        5987 => Some(("ZWL005987", "Ahmedabad Sector 16, Gandhinagar", 23216612i64, 72652543i64)),
        5991 => Some(("ZWL005991", "Mumbai Borivali East", 19241003i64, 72865970i64)),
        5996 => Some(("ZWL005996", "Delhi NCR New Friends Colony", 28565268i64, 77274971i64)),
        5999 => Some(("ZWL005999", "Hyderabad ECIL", 17460327i64, 78567924i64)),
        6000 => Some(("ZWL006000", "Surat Vesu, Surat", 21136777i64, 72762895i64)),
        6016 => Some(("ZWL006016", "Hyderabad Kompally", 17533309i64, 78489965i64)),
        6032 => Some(("ZWL006032", "Mumbai Vasai", 19364358i64, 72836612i64)),
        6053 => Some(("ZWL006053", "Chennai Porur", 13048069i64, 80158163i64)),
        6092 => Some(("ZWL006092", "Delhi NCR Sector 46", 28438586i64, 77060773i64)),
        6116 => Some(("ZWL006116", "Delhi NCR Patparganj", 28632961i64, 77308344i64)),
        6156 => Some(("ZWL006156", "Chennai Velachery", 12989300i64, 80199988i64)),
        6208 => Some(("ZWL006208", "Ludhiana Civil Lines, Ludhiana", 30916548i64, 75818266i64)),
        6232 => Some(("ZWL006232", "Chennai Royapuram", 13136635i64, 80289535i64)),
        6234 => Some(("ZWL006234", "Delhi NCR SAHIBABAD", 28682920i64, 77362827i64)),
        6236 => Some(("ZWL006236", "Pune Bavdhan", 18514730i64, 73777922i64)),
        6266 => Some(("ZWL006266", "Kolkata Barasat", 22735727i64, 88490498i64)),
        6274 => Some(("ZWL006274", "Bengaluru Electronic City", 12833101i64, 77673182i64)),
        6287 => Some(("ZWL006287", "Delhi NCR Sector 15", 28457927i64, 77034816i64)),
        6288 => Some(("ZWL006288", "Ahmedabad Bopal", 23011294i64, 72464041i64)),
        6295 => Some(("ZWL006295", "Delhi NCR Mohan Estate", 28494788i64, 77312727i64)),
        6329 => Some(("ZWL006329", "Chennai Thandalam, Chennai", 12863785i64, 79947886i64)),
        6369 => Some(("ZWL006369", "Bengaluru KR Puram", 13016987i64, 77706819i64)),
        6372 => Some(("ZWL006372", "Jaipur Pratap Nagar", 26798396i64, 75815353i64)),
        6384 => Some(("ZWL006384", "Delhi NCR Gulavali, Noida", 28436941i64, 77456903i64)),
        6396 => Some(("ZWL006396", "Delhi NCR Moti Bagh, Delhi", 28575774i64, 77180697i64)),
        6403 => Some(("ZWL006403", "Goa Morjim, Goa", 15653757i64, 73747022i64)),
        6432 => Some(("ZWL006432", "Nagpur Kharabi, Nagpur", 21144692i64, 79136306i64)),
        6449 => Some(("ZWL006449", "Mangalore South Mangalore", 12879030i64, 74854593i64)),
        6490 => Some(("ZWL006490", "Lucknow Aminabad", 26856770i64, 80925103i64)),
        6520 => Some(("ZWL006520", "Chennai Adyar", 12993947i64, 80247174i64)),
        6521 => Some(("ZWL006521", "Kolkata Sodepur", 22701254i64, 88383329i64)),
        6535 => Some(("ZWL006535", "Hyderabad Hayath Nagar, Hyderabad", 17326620i64, 78609288i64)),
        6536 => Some(("ZWL006536", "Mumbai Mira Road East", 19278130i64, 72874722i64)),
        6537 => Some(("ZWL006537", "Guwahati Basistha-Lokhra, Guwahati", 26116888i64, 91777488i64)),
        6538 => Some(("ZWL006538", "Delhi NCR Connaught Place", 28630630i64, 77220640i64)),
        6544 => Some(("ZWL006544", "Mumbai Mahim", 19039256i64, 72843913i64)),
        6545 => Some(("ZWL006545", "Hyderabad Sangareddy, Hyderabad", 17598038i64, 78091346i64)),
        6556 => Some(("ZWL006556", "Goa Majorda, Goa", 15255895i64, 73937616i64)),
        6574 => Some(("ZWL006574", "Kolkata Tollygunge", 22498620i64, 88351732i64)),
        6600 => Some(("ZWL006600", "Bengaluru BTM Layout", 12916931i64, 77608897i64)),
        6622 => Some(("ZWL006622", "Mumbai Powai, Mumbai", 19115248i64, 72908952i64)),
        6631 => Some(("ZWL006631", "Bengaluru Kammanahalli", 13016050i64, 77661735i64)),
        6651 => Some(("ZWL006651", "Raipur Civil Lines, Raipur", 21243402i64, 81650848i64)),
        6658 => Some(("ZWL006658", "Bengaluru Yelahanka", 13111809i64, 77589276i64)),
        6660 => Some(("ZWL006660", "Pune SP Infocity, Pune", 18487813i64, 73947187i64)),
        6687 => Some(("ZWL006687", "Chandigarh Sector 8 (Chandigarh)", 30749265i64, 76801584i64)),
        6697 => Some(("ZWL006697", "Delhi NCR Mehrauli", 28524426i64, 77183996i64)),
        6699 => Some(("ZWL006699", "Hyderabad Hafiz Baba Nagar", 17338717i64, 78497590i64)),
        6702 => Some(("ZWL006702", "Hyderabad Peerzadiguda", 17411644i64, 78578220i64)),
        6720 => Some(("ZWL006720", "Delhi NCR Paschim Vihar", 28665591i64, 77098478i64)),
        6738 => Some(("ZWL006738", "Delhi NCR Sector 120 (Noida)", 28586854i64, 77390832i64)),
        6743 => Some(("ZWL006743", "Pune Viman nagar", 18564998i64, 73911551i64)),
        6750 => Some(("ZWL006750", "Kolkata Bhowanipore", 22526436i64, 88343904i64)),
        6788 => Some(("ZWL006788", "Ludhiana Sarabha Nagar, Ludhiana", 30891869i64, 75834901i64)),
        6789 => Some(("ZWL006789", "Chennai Potheri", 12799983i64, 80029865i64)),
        6817 => Some(("ZWL006817", "Chandigarh Sector 28 (Chandigarh)", 30724245i64, 76808833i64)),
        6844 => Some(("ZWL006844", "Bengaluru Rajajinagar", 12993217i64, 77557903i64)),
        6854 => Some(("ZWL006854", "Bengaluru Varthur", 12936055i64, 77723415i64)),
        6868 => Some(("ZWL006868", "Delhi NCR Nehru Nagar", 28653441i64, 77449969i64)),
        6873 => Some(("ZWL006873", "Kochi Ernakulam", 9969514i64, 76288288i64)),
        6900 => Some(("ZWL006900", "Bhopal Airport Area, Bhopal", 23290449i64, 77337426i64)),
        6937 => Some(("ZWL006937", "Mumbai Kandivali East", 19200730i64, 72865461i64)),
        6938 => Some(("ZWL006938", "Mumbai Goregaon East", 19163093i64, 72872277i64)),
        6981 => Some(("ZWL006981", "Guwahati Pathar Quarry, Guwahati", 26159879i64, 91827651i64)),
        6995 => Some(("ZWL006995", "Mumbai Bandra West", 19068857i64, 72833000i64)),
        6996 => Some(("ZWL006996", "Delhi NCR Model Town", 28717232i64, 77194643i64)),
        7011 => Some(("ZWL007011", "Lucknow Kalyanpur", 26907206i64, 80974143i64)),
        7041 => Some(("ZWL007041", "Kolkata Sonarpur, Kolkata", 22432033i64, 88408369i64)),
        7059 => Some(("ZWL007059", "Chennai Ashok Nagar (CHENNAI)", 13022680i64, 80200286i64)),
        7061 => Some(("ZWL007061", "Delhi NCR Sector 31", 28442946i64, 77057195i64)),
        7095 => Some(("ZWL007095", "Guwahati Lal Ganesh - Kahilipara, Guwahati", 26145102i64, 91752656i64)),
        7119 => Some(("ZWL007119", "Hyderabad Nizampet", 17509398i64, 78390364i64)),
        7120 => Some(("ZWL007120", "Delhi NCR Vasant Kunj, Delhi", 28524633i64, 77151206i64)),
        7138 => Some(("ZWL007138", "Delhi NCR Sector 7, Gurgaon", 28476288i64, 77013365i64)),
        7171 => Some(("ZWL007171", "Chennai Selaiyur", 12916570i64, 80134348i64)),
        7176 => Some(("ZWL007176", "Chennai Poonamallee", 13052763i64, 80090763i64)),
        7187 => Some(("ZWL007187", "Hyderabad Kondapur", 17472485i64, 78367854i64)),
        7188 => Some(("ZWL007188", "Nagpur Ayodhya Nagar, Nagpur", 21103625i64, 79104888i64)),
        7209 => Some(("ZWL007209", "Chennai Ambattur", 13117566i64, 80146667i64)),
        7212 => Some(("ZWL007212", "Delhi NCR Sector 52 (Noida)", 28595742i64, 77362995i64)),
        7216 => Some(("ZWL007216", "Kochi Thiruvankulam", 9932264i64, 76385740i64)),
        7224 => Some(("ZWL007224", "Delhi NCR Indirapuram", 28644059i64, 77373883i64)),
        _ => None,
    }
}

/// The executable arms for numeric codes 7249 through 8806.
fn lookup_e(n: u32) -> (r: Option<(&'static str, &'static str, i64, i64)>)
    ensures
        entry_option_model(r) == entry_spec_e(n as int),
{
    match n {
        7249 => Some(("ZWL007249", "Mumbai Bhiwandi", 19251790i64, 73087318i64)),
        7275 => Some(("ZWL007275", "Mumbai Vashi", 19067662i64, 73004987i64)),
        7284 => Some(("ZWL007284", "Delhi NCR Sector 43, Gurgaon", 28454416i64, 77088820i64)),
        7308 => Some(("ZWL007308", "Delhi NCR Sector 29, Gurgaon", 28459498i64, 77061046i64)),
        7311 => Some(("ZWL007311", "Hyderabad Medchal Road", 17637191i64, 78480392i64)),
        7323 => Some(("ZWL007323", "Kolkata New Alipore", 22506135i64, 88332770i64)),
        7329 => Some(("ZWL007329", "Delhi NCR Saket", 28523171i64, 77207543i64)),
        7344 => Some(("ZWL007344", "Hyderabad Charminar", 17375037i64, 78454499i64)),
        7379 => Some(("ZWL007379", "Bhubaneswar Sahid Nagar, Bhubaneshwar", 20289125i64, 85856680i64)),
        7390 => Some(("ZWL007390", "Hyderabad Saroor Nagar", 17348264i64, 78530476i64)),
        7397 => Some(("ZWL007397", "Mumbai Kalyan,East (Mumbai)", 19221503i64, 73138111i64)),
        7404 => Some(("ZWL007404", "Ahmedabad Prahlad Nagar", 22998074i64, 72515955i64)),
        7431 => Some(("ZWL007431", "Delhi NCR Najafgarh", 28607458i64, 76995980i64)),
        7456 => Some(("ZWL007456", "Amritsar Hall Bazar, Amritsar", 31632158i64, 74866838i64)),
        7457 => Some(("ZWL007457", "Jammu Greater Kailash, Jammu", 32670712i64, 74901243i64)),
        7471 => Some(("ZWL007471", "Pune Khadki, Pune", 18563289i64, 73835023i64)),
        7486 => Some(("ZWL007486", "Delhi NCR Dwarka, Delhi", 28594467i64, 77047747i64)),
        7487 => Some(("ZWL007487", "Delhi NCR Sector 50 (Noida)", 28569103i64, 77364876i64)),
        7491 => Some(("ZWL007491", "Bhubaneswar Madhusudan Nagar, Bhubaneswar", 20278497i64, 85824922i64)),
        7514 => Some(("ZWL007514", "Kolkata Chhota Jagulia", 22759573i64, 88747215i64)),
        7527 => Some(("ZWL007527", "Coimbatore Peelamedu, Coimbatore", 11026179i64, 77005899i64)),
        7561 => Some(("ZWL007561", "Chandigarh Sector 15 (Chandigarh)", 30764466i64, 76774815i64)),
        7566 => Some(("ZWL007566", "Delhi NCR Faridabad Sector 16-20", 28422437i64, 77310113i64)),
        7594 => Some(("ZWL007594", "Delhi NCR Naraina", 28627479i64, 77142115i64)),
        7600 => Some(("ZWL007600", "Coimbatore Koundampalayam", 11068353i64, 76937962i64)),
        7606 => Some(("ZWL007606", "Mumbai Tardeo", 18961317i64, 72805513i64)),
        7628 => Some(("ZWL007628", "Bengaluru New BEL Road", 13040495i64, 77569420i64)),
        7633 => Some(("ZWL007633", "Bengaluru Whitefield", 12975224i64, 77740422i64)),
        7643 => Some(("ZWL007643", "Bengaluru Mahadevapura", 12985322i64, 77687578i64)),
        7653 => Some(("ZWL007653", "Delhi NCR Mukherjee Nagar", 28702971i64, 77209740i64)),
        7666 => Some(("ZWL007666", "Delhi NCR Sector 45 (Noida)", 28555596i64, 77345713i64)),
        7667 => Some(("ZWL007667", "Mumbai Andheri West", 19137106i64, 72834828i64)),
        7690 => Some(("ZWL007690", "Mumbai Nerul (Navi Mumbai)", 19031072i64, 73026647i64)),
        7698 => Some(("ZWL007698", "Pune NIGDI(Pune)", 18646511i64, 73775411i64)),
        7699 => Some(("ZWL007699", "Mumbai Ambernath", 19199776i64, 73181176i64)),
        7706 => Some(("ZWL007706", "Mumbai Dahisar West", 19255014i64, 72848267i64)),
        7731 => Some(("ZWL007731", "Lucknow Aliganj, Lucknow", 26890082i64, 80942007i64)),
        7746 => Some(("ZWL007746", "Trivandrum Tvm Central", 8490977i64, 76969250i64)),
        7801 => Some(("ZWL007801", "Pune Pimpri", 18625381i64, 73791194i64)),
        7830 => Some(("ZWL007830", "Kolkata Garia", 22469249i64, 88382261i64)),
        7840 => Some(("ZWL007840", "Delhi NCR Sector 14", 28471738i64, 77045472i64)),
        7889 => Some(("ZWL007889", "Mumbai Bhandup West", 19151889i64, 72934553i64)),
        7895 => Some(("ZWL007895", "Pune New Sangvi, Pune", 18578959i64, 73823437i64)),
        7903 => Some(("ZWL007903", "Delhi NCR Janakpuri", 28623431i64, 77097814i64)),
        7925 => Some(("ZWL007925", "Pune Wanowrie-Kondhwa", 18477085i64, 73900966i64)),
        7934 => Some(("ZWL007934", "Kolkata Salt Lake 1", 22573829i64, 88412814i64)),
        7951 => Some(("ZWL007951", "Surat Athwa", 21168804i64, 72803931i64)),
        7966 => Some(("ZWL007966", "Kolkata Uttarpara", 22692420i64, 88342900i64)),
        8047 => Some(("ZWL008047", "Jammu OLD JAMMU, Jammu", 32727614i64, 74856395i64)),
        8105 => Some(("ZWL008105", "Bengaluru Jayanagar", 12944441i64, 77581003i64)),
        8120 => Some(("ZWL008120", "Kolkata Shrirampur", 22735733i64, 88344597i64)),
        8134 => Some(("ZWL008134", "Pune Yerwada", 18544659i64, 73869499i64)),
        8191 => Some(("ZWL008191", "Delhi NCR Rangpuri", 28533976i64, 77119516i64)),
        8198 => Some(("ZWL008198", "Surat Adajan, Surat", 21211151i64, 72793110i64)),
        8208 => Some(("ZWL008208", "Hyderabad Jeedimetla", 17495621i64, 78450281i64)),
        8219 => Some(("ZWL008219", "Delhi NCR SUSHANT LOK 1", 28467923i64, 77076530i64)),
        8225 => Some(("ZWL008225", "Delhi NCR Sector 25", 28484268i64, 77084693i64)),
        8232 => Some(("ZWL008232", "Vadodara Shubhanpura", 22321614i64, 73160014i64)),
        8249 => Some(("ZWL008249", "Jaipur Raja Park", 26902497i64, 75826544i64)),
        8265 => Some(("ZWL008265", "Coimbatore Ondipudur, Coimbatore", 10997670i64, 77042986i64)),
        8281 => Some(("ZWL008281", "Amritsar Rasulpur, Amritsar", 31619590i64, 74915049i64)),
        8282 => Some(("ZWL008282", "Nagpur Dharampeth", 21131547i64, 79056027i64)),
        8293 => Some(("ZWL008293", "Delhi NCR Dilshad Garden", 28684684i64, 77320986i64)),
        8297 => Some(("ZWL008297", "Hyderabad Bachupally", 17544887i64, 78359975i64)),
        8309 => Some(("ZWL008309", "Hyderabad Alwal", 17508852i64, 78507402i64)),
        8317 => Some(("ZWL008317", "Delhi NCR Raj Nagar, Ghaziabad", 28689174i64, 77428976i64)),
        8348 => Some(("ZWL008348", "Mumbai Shirdhon, Mumbai", 19195881i64, 73128886i64)),
        8360 => Some(("ZWL008360", "Mumbai Palava Lakeshore,Mumbai", 19165716i64, 73105733i64)),
        8370 => Some(("ZWL008370", "Pune Katraj (Pune)", 18451394i64, 73847642i64)),
        8378 => Some(("ZWL008378", "Mumbai Sion", 19045271i64, 72864631i64)),
        8393 => Some(("ZWL008393", "Kolkata New Town (kolkata)", 22588818i64, 88457964i64)),
        8401 => Some(("ZWL008401", "Delhi NCR Sector 52, Gurgaon", 28443858i64, 77083991i64)),
        8405 => Some(("ZWL008405", "Delhi NCR Crossing Republik", 28635043i64, 77419056i64)),
        8426 => Some(("ZWL008426", "Kolkata Howrah", 22604678i64, 88342218i64)),
        8438 => Some(("ZWL008438", "Hyderabad Sivarampalli", 17345995i64, 78439283i64)),
        8476 => Some(("ZWL008476", "Delhi NCR Sector 23", 28509080i64, 77057138i64)),
        8512 => Some(("ZWL008512", "Hyderabad Mokila, Hyderabad", 17436228i64, 78190072i64)),
        8519 => Some(("ZWL008519", "Goa Mapusa, Goa", 15599556i64, 73791137i64)),
        8548 => Some(("ZWL008548", "Chennai Mugalivakkam", 13014886i64, 80152455i64)),
        8550 => Some(("ZWL008550", "Mumbai Santacruz East", 19076131i64, 72858715i64)),
        8554 => Some(("ZWL008554", "Delhi NCR Greater Noida", 28456171i64, 77521577i64)),
        8585 => Some(("ZWL008585", "Hyderabad Shamshabad", 17257432i64, 78387920i64)),
        8599 => Some(("ZWL008599", "Hyderabad Miyapur", 17500034i64, 78342670i64)),
        8600 => Some(("ZWL008600", "Bengaluru Marathahalli", 12955103i64, 77696507i64)),
        8635 => Some(("ZWL008635", "Kolkata Alipore", 22536626i64, 88331142i64)),
        8636 => Some(("ZWL008636", "Mumbai Nalasopara", 19424433i64, 72817134i64)),
        8648 => Some(("ZWL008648", "Delhi NCR Govindpuram", 28689317i64, 77486930i64)),
        8649 => Some(("ZWL008649", "Delhi NCR Sez Noida 1", 28507448i64, 77410089i64)),
        8653 => Some(("ZWL008653", "Coimbatore RS Puram, Coimbatore", 11000355i64, 76941985i64)),
        8680 => Some(("ZWL008680", "Jaipur Vidhyadhar Nagar", 26963051i64, 75770166i64)),
        8695 => Some(("ZWL008695", "Raipur Devendra Nagar", 21252033i64, 81650070i64)),
        8711 => Some(("ZWL008711", "Mumbai Malad West", 19187022i64, 72827076i64)),
        8716 => Some(("ZWL008716", "Delhi NCR Laxmi Nagar", 28627366i64, 77279200i64)),
        8752 => Some(("ZWL008752", "Delhi NCR Faridabad Sector 41-50", 28460895i64, 77304764i64)),
        8753 => Some(("ZWL008753", "Jammu Gandhi Nagar, Jammu", 32704392i64, 74864830i64)),
        8755 => Some(("ZWL008755", "Bhopal Ashoka Garden, Bhopal", 23260793i64, 77421525i64)),
        8776 => Some(("ZWL008776", "Hyderabad Begumpet", 17442659i64, 78482009i64)),
        8791 => Some(("ZWL008791", "Delhi NCR IMT Manesar", 28384492i64, 76941950i64)),
        8797 => Some(("ZWL008797", "Bengaluru Devanahalli, Bangalore", 13258381i64, 77716183i64)),
        8806 => Some(("ZWL008806", "Kolkata Salt Lake 2", 22583560i64, 88432176i64)),
        _ => None,
    }
}

/// The executable arms for numeric codes 8828 through 9990.
fn lookup_f(n: u32) -> (r: Option<(&'static str, &'static str, i64, i64)>)
    ensures
        entry_option_model(r) == entry_spec_f(n as int),
{
    match n {
        8828 => Some(("ZWL008828", "Kolkata Elgin", 22543063i64, 88356096i64)),
        8872 => Some(("ZWL008872", "Raipur Mahaveer Nagar", 21210730i64, 81640523i64)),
        8874 => Some(("ZWL008874", "Mumbai Bhayandar West", 19257869i64, 72804743i64)),
        8876 => Some(("ZWL008876", "Chennai Avadi", 13125301i64, 80069776i64)),
        8890 => Some(("ZWL008890", "Hyderabad Serilingampally", 17485245i64, 78313916i64)),
        8897 => Some(("ZWL008897", "Delhi NCR Vikaspuri", 28645655i64, 77065922i64)),
        8906 => Some(("ZWL008906", "Bhubaneswar Jagmohan Nagar, Bhubaneswar", 20257002i64, 85789371i64)),
        8915 => Some(("ZWL008915", "Jaipur Shastri Nagar", 26936514i64, 75797054i64)),
        8921 => Some(("ZWL008921", "Pune Sadashiv Peth", 18511357i64, 73856996i64)),
        8938 => Some(("ZWL008938", "Vadodara Diwalipura", 22302691i64, 73156120i64)),
        8940 => Some(("ZWL008940", "Pune Ghorpadi (Pune)", 18519767i64, 73897269i64)),
        8963 => Some(("ZWL008963", "Delhi NCR Safdarjung Enclave", 28562608i64, 77191457i64)),
        8975 => Some(("ZWL008975", "Mumbai Andheri East", 19108639i64, 72874437i64)),
        8977 => Some(("ZWL008977", "Mumbai Kamothe", 19023359i64, 73091814i64)),
        8978 => Some(("ZWL008978", "Delhi NCR Kamla Nagar", 28676018i64, 77208446i64)),
        8983 => Some(("ZWL008983", "Pune Baner (Pune)", 18567954i64, 73783475i64)),
        8991 => Some(("ZWL008991", "Kolkata Chinsurah, Kolkata", 22933551i64, 88398649i64)),
        8996 => Some(("ZWL008996", "Chennai Perambur", 13121741i64, 80225058i64)),
        9008 => Some(("ZWL009008", "Delhi NCR Sector 12 (Noida)", 28599952i64, 77343188i64)),
        9021 => Some(("ZWL009021", "Ludhiana Sector 32, Ludhiana", 30895881i64, 75906050i64)),
        9022 => Some(("ZWL009022", "Kolkata Behala", 22488571i64, 88306630i64)),
        9032 => Some(("ZWL009032", "Delhi NCR New Industrial Town", 28375702i64, 77299442i64)),
        9091 => Some(("ZWL009091", "Lucknow Chowk", 26873686i64, 80894502i64)),
        9096 => Some(("ZWL009096", "Delhi NCR Chhatarpur", 28497203i64, 77171629i64)),
        9157 => Some(("ZWL009157", "Pune Koregaon Park (Pune)", 18535326i64, 73883976i64)),
        9167 => Some(("ZWL009167", "Mumbai Byculla", 18974283i64, 72833712i64)),
        9177 => Some(("ZWL009177", "Lucknow Jankipuram", 26926427i64, 80936884i64)),
        9182 => Some(("ZWL009182", "Ahmedabad Maninagar", 22985307i64, 72610322i64)),
        9194 => Some(("ZWL009194", "Kolkata Kankurgachi", 22573467i64, 88391666i64)),
        9212 => Some(("ZWL009212", "Bengaluru Nagavara", 13048370i64, 77625534i64)),
        9229 => Some(("ZWL009229", "Bengaluru Aavalahalli", 13034488i64, 77712241i64)),
        9252 => Some(("ZWL009252", "Mumbai Chembur", 19049840i64, 72907847i64)),
        9257 => Some(("ZWL009257", "Kolkata Bow Barracks", 22565476i64, 88360918i64)),
        9286 => Some(("ZWL009286", "Jaipur Jagatpura", 26825942i64, 75851086i64)),
        9293 => Some(("ZWL009293", "Delhi NCR Nangloi", 28659524i64, 77060800i64)),
        9335 => Some(("ZWL009335", "Delhi NCR Faridabad Sector 1-11", 28365131i64, 77326157i64)),
        9338 => Some(("ZWL009338", "Mumbai Vile Parle West", 19109560i64, 72832194i64)),
        9339 => Some(("ZWL009339", "Delhi NCR Karol Bagh", 28647924i64, 77190463i64)),
        9343 => Some(("ZWL009343", "Trivandrum Kazhakoottam, Thiruvananthapuram", 8575170i64, 76904888i64)),
        9360 => Some(("ZWL009360", "Mumbai Ulwe, Mumbai", 18974217i64, 73024914i64)),
        9406 => Some(("ZWL009406", "Chandigarh Sector 22 (Chandigarh)", 30735307i64, 76774912i64)),
        9407 => Some(("ZWL009407", "Guwahati North Guwahati, Guwahati", 26196471i64, 91684788i64)),
        9428 => Some(("ZWL009428", "Bhopal Shahpura,Bhopal", 23176545i64, 77418255i64)),
        9430 => Some(("ZWL009430", "Chandigarh VIP Road, Zirakpur", 30656048i64, 76823298i64)),
        9458 => Some(("ZWL009458", "Jaipur Shyam Nagar", 26887617i64, 75756174i64)),
        9478 => Some(("ZWL009478", "Mangalore Thokkattu, Mangalore", 12820460i64, 74865765i64)),
        9487 => Some(("ZWL009487", "Kochi Perumbavoor,Kochi", 10117563i64, 76460320i64)),
        9519 => Some(("ZWL009519", "Hyderabad Moosapet", 17453292i64, 78421126i64)),
        9521 => Some(("ZWL009521", "9 nd Panchkula", 30694507i64, 76849604i64)),
        9537 => Some(("ZWL009537", "Mumbai Kopar Khairane (Navi Mumbai)", 19113909i64, 73012598i64)),
        9569 => Some(("ZWL009569", "Jaipur Pink City", 26929588i64, 75823855i64)),
        9572 => Some(("ZWL009572", "Bhubaneswar Chandrasekharpur, Bhubaneswar", 20317124i64, 85806992i64)),
        9577 => Some(("ZWL009577", "Pune Nanded-Nahre", 18453179i64, 73811077i64)),
        9595 => Some(("ZWL009595", "Coimbatore Ganapathypudur, Coimbatore", 11042698i64, 76984477i64)),
        9602 => Some(("ZWL009602", "Pune Kothrud (Pune)", 18504984i64, 73811587i64)),
        9625 => Some(("ZWL009625", "Pune Kalyani Nagar (Pune)", 18546538i64, 73906594i64)),
        9638 => Some(("ZWL009638", "Delhi NCR Sector 24", 28497419i64, 77090980i64)),
        9648 => Some(("ZWL009648", "Delhi NCR Sector 63 (Noida)", 28621672i64, 77386474i64)),
        9668 => Some(("ZWL009668", "Coimbatore Saibaba Colony, Coimbatore", 11032946i64, 76944253i64)),
        9671 => Some(("ZWL009671", "Pune Manas Lake, Pune", 18491382i64, 73748953i64)),
        9682 => Some(("ZWL009682", "Lucknow Rajajipuram", 26842055i64, 80873868i64)),
        9706 => Some(("ZWL009706", "Delhi NCR Sector 27", 28465260i64, 77085742i64)),
        9712 => Some(("ZWL009712", "Hyderabad Dilsukhnagar", 17370431i64, 78536184i64)),
        9713 => Some(("ZWL009713", "Vadodara Nizampura", 22334731i64, 73176306i64)),
        9719 => Some(("ZWL009719", "Hyderabad JNTU", 17485166i64, 78389775i64)),
        9728 => Some(("ZWL009728", "Delhi NCR Gwal Pahari", 28435122i64, 77136308i64)),
        9757 => Some(("ZWL009757", "Mumbai Kharghar (Navi Mumbai)", 19069735i64, 73055883i64)),
        9782 => Some(("ZWL009782", "Nagpur Hanuman Nagar", 21131152i64, 79100974i64)),
        9826 => Some(("ZWL009826", "Mumbai Dombivli", 19210229i64, 73102272i64)),
        9834 => Some(("ZWL009834", "Delhi NCR Malviya Nagar", 28536048i64, 77213453i64)),
        9852 => Some(("ZWL009852", "Delhi NCR Sector 2 (Noida)", 28581459i64, 77316720i64)),
        9874 => Some(("ZWL009874", "Pune Pashan (Pune)", 18527587i64, 73789459i64)),
        9894 => Some(("ZWL009894", "Chandigarh Gillco, Chandigarh", 30736526i64, 76654293i64)),
        9896 => Some(("ZWL009896", "Raipur Purena, Raipur", 21235636i64, 81692460i64)),
        9897 => Some(("ZWL009897", "Chennai Minjur, Chennai", 13282298i64, 80266616i64)),
        9921 => Some(("ZWL009921", "Jalandhar Shastri Nagar, Jalandhar", 31323693i64, 75583627i64)),
        9925 => Some(("ZWL009925", "Delhi NCR Ghitorni", 28486412i64, 77125366i64)),
        9959 => Some(("ZWL009959", "Visakhapatnam Madhurawada", 17789823i64, 83373031i64)),
        9990 => Some(("ZWL009990", "Ahmedabad Bodakdev", 23055398i64, 72491724i64)),
        _ => None,
    }
}

/// The full directory, keyed by the numeric part of the code.
pub open spec fn entry_spec(n: int) -> Option<(Seq<char>, Seq<char>, i64, i64)> {
    if n < 2556 {
        entry_spec_a(n)
    } else if n < 4233 {
        entry_spec_b(n)
    } else if n < 5736 {
        entry_spec_c(n)
    } else if n < 7249 {
        entry_spec_d(n)
    } else if n < 8828 {
        entry_spec_e(n)
    } else {
        entry_spec_f(n)
    }
}

/// Looks a numeric code up in the directory.
pub fn lookup_entry(n: u32) -> (r: Option<(&'static str, &'static str, i64, i64)>)
    ensures
        entry_option_model(r) == entry_spec(n as int),
{
    if n < 2556 {
        lookup_a(n)
    } else if n < 4233 {
        lookup_b(n)
    } else if n < 5736 {
        lookup_c(n)
    } else if n < 7249 {
        lookup_d(n)
    } else if n < 8828 {
        lookup_e(n)
    } else {
        lookup_f(n)
    }
}

} // verus!
