//! Regions, named by province and city.

use vstd::prelude::*;
use vstd::string::*;
use crate::text::{ascii_lower_char, all_ascii, lowercase, same_text, to_lowercase};

verus! {

/// Whether `s` is ASCII without upper-case letters, so that lowercasing
/// leaves it as it is.
pub open spec fn is_lower_ascii(s: Seq<char>) -> bool {
    forall|i: int| 0 <= i < s.len() ==> (#[trigger] s[i] as int) < 128 && !('A' <= s[i] && s[i] <= 'Z')
}

/// Lowercasing leaves an ASCII text without upper-case letters unchanged.
pub proof fn lemma_lowercase_fixed(s: Seq<char>)
    requires
        is_lower_ascii(s),
    ensures
        all_ascii(s),
        s.map_values(|c: char| ascii_lower_char(c)) == s,
{
    assert(s.map_values(|c: char| ascii_lower_char(c)) =~= s);
}

/// The Chinese name of a province key, or the key itself where it is unknown.
pub open spec fn province_label(p: Seq<char>) -> Seq<char> {
    if p == "jiangsu"@ {
        "江苏"@
    } else if p == "zhejiang"@ {
        "浙江"@
    } else if p == "shanghai"@ {
        "上海"@
    } else if p == "guangdong"@ {
        "广东"@
    } else if p == "beijing"@ {
        "北京"@
    } else {
        p
    }
}

/// The Chinese name of a city key, or the key itself where it is unknown.
pub open spec fn city_label(c: Seq<char>) -> Seq<char> {
    if c == "wuxi"@ {
        "无锡"@
    } else if c == "nanjing"@ {
        "南京"@
    } else if c == "suzhou"@ {
        "苏州"@
    } else if c == "hangzhou"@ {
        "杭州"@
    } else if c == "shanghai"@ {
        "上海"@
    } else if c == "shenzhen"@ {
        "深圳"@
    } else if c == "beijing"@ {
        "北京"@
    } else {
        c
    }
}

/// The display name of a region: province and city names, space-separated.
pub open spec fn region_display(province: Seq<char>, city: Seq<char>) -> Seq<char> {
    province_label(province) + " "@ + city_label(city)
}

/// Whether `k` is the position of the only '/' in `s`.
pub open spec fn single_separator(s: Seq<char>, k: int) -> bool {
    &&& 0 <= k < s.len()
    &&& s[k] == '/'
    &&& forall|j: int| 0 <= j < s.len() && j != k ==> s[j] != '/'
}

/// The message for a text that is not `province/city`.
pub open spec fn region_format_error(s: Seq<char>) -> Seq<char> {
    "地区格式错误: "@ + s + " (应为 province/city)"@
}

/// A region: a province and a city, both keys in lower case.
#[derive(Debug, PartialEq, Eq)]
pub struct Region {
    pub province: String,
    pub city: String,
}

impl Clone for Region {
    fn clone(&self) -> (r: Region)
        ensures
            r == *self,
    {
        Region { province: self.province.clone(), city: self.city.clone() }
    }
}

impl Region {
    /// Whether two regions hold the same texts.
    pub open spec fn same(self, other: Region) -> bool {
        self.province@ == other.province@ && self.city@ == other.city@
    }

    /// The region of a province and a city, both lowercased.
    pub fn new(province: &str, city: &str) -> (r: Region)
        ensures
            r.province@ == lowercase(province@),
            r.city@ == lowercase(city@),
            all_ascii(province@) ==> r.province@ == province@.map_values(|c: char| ascii_lower_char(c)),
            all_ascii(city@) ==> r.city@ == city@.map_values(|c: char| ascii_lower_char(c)),
    {
        Region { province: to_lowercase(province), city: to_lowercase(city) }
    }

    /// A region of keys that are lowercase already.
    fn from_lower_keys(province: &str, city: &str) -> (r: Region)
        requires
            is_lower_ascii(province@),
            is_lower_ascii(city@),
        ensures
            r.province@ == province@,
            r.city@ == city@,
    {
        proof {
            lemma_lowercase_fixed(province@);
            lemma_lowercase_fixed(city@);
        }
        Region::new(province, city)
    }

    /// Wuxi in Jiangsu, the default region.
    pub fn jiangsu_wuxi() -> (r: Region)
        ensures
            r.province@ == "jiangsu"@,
            r.city@ == "wuxi"@,
    {
        proof {
            reveal_strlit("jiangsu");
            reveal_strlit("wuxi");
        }
        Region::from_lower_keys("jiangsu", "wuxi")
    }

    /// The Chinese display name, such as "江苏 无锡".
    pub fn display_name(&self) -> (r: String)
        ensures
            r@ == region_display(self.province@, self.city@),
    {
        let p = self.province.as_str();
        let province: &str = if same_text(p, "jiangsu") {
            "江苏"
        } else if same_text(p, "zhejiang") {
            "浙江"
        } else if same_text(p, "shanghai") {
            "上海"
        } else if same_text(p, "guangdong") {
            "广东"
        } else if same_text(p, "beijing") {
            "北京"
        } else {
            p
        };
        let c = self.city.as_str();
        let city: &str = if same_text(c, "wuxi") {
            "无锡"
        } else if same_text(c, "nanjing") {
            "南京"
        } else if same_text(c, "suzhou") {
            "苏州"
        } else if same_text(c, "hangzhou") {
            "杭州"
        } else if same_text(c, "shanghai") {
            "上海"
        } else if same_text(c, "shenzhen") {
            "深圳"
        } else if same_text(c, "beijing") {
            "北京"
        } else {
            c
        };
        let mut out = province.to_owned();
        out.append(" ");
        out.append(city);
        out
    }

    /// The regions with known tariffs.
    pub fn supported_regions() -> (r: Vec<Region>)
        ensures
            r@.len() == 7,
            r@[0].province@ == "jiangsu"@ && r@[0].city@ == "wuxi"@,
            r@[1].province@ == "jiangsu"@ && r@[1].city@ == "nanjing"@,
            r@[2].province@ == "jiangsu"@ && r@[2].city@ == "suzhou"@,
            r@[3].province@ == "zhejiang"@ && r@[3].city@ == "hangzhou"@,
            r@[4].province@ == "shanghai"@ && r@[4].city@ == "shanghai"@,
            r@[5].province@ == "guangdong"@ && r@[5].city@ == "shenzhen"@,
            r@[6].province@ == "beijing"@ && r@[6].city@ == "beijing"@,
    {
        proof {
            reveal_strlit("jiangsu");
            reveal_strlit("nanjing");
            reveal_strlit("suzhou");
            reveal_strlit("zhejiang");
            reveal_strlit("hangzhou");
            reveal_strlit("shanghai");
            reveal_strlit("guangdong");
            reveal_strlit("shenzhen");
            reveal_strlit("beijing");
        }
        let mut r: Vec<Region> = Vec::new();
        r.push(Region::jiangsu_wuxi());
        r.push(Region::from_lower_keys("jiangsu", "nanjing"));
        r.push(Region::from_lower_keys("jiangsu", "suzhou"));
        r.push(Region::from_lower_keys("zhejiang", "hangzhou"));
        r.push(Region::from_lower_keys("shanghai", "shanghai"));
        r.push(Region::from_lower_keys("guangdong", "shenzhen"));
        r.push(Region::from_lower_keys("beijing", "beijing"));
        r
    }

    /// Parses `province/city`: the text must hold exactly one '/'.
    pub fn parse(s: &str) -> (r: Result<Region, String>)
        ensures
            r is Ok <==> exists|k: int| single_separator(s@, k),
            r matches Ok(reg) ==> exists|k: int|
                single_separator(s@, k) && reg.province@ == lowercase(s@.subrange(0, k))
                    && reg.city@ == lowercase(s@.subrange(k + 1, s@.len() as int)),
            r matches Err(m) ==> m@ == region_format_error(s@),
    {
        let n = s.unicode_len();
        let mut first: usize = n;
        let mut count: usize = 0;
        let mut i: usize = 0;
        while i < n
            invariant
                n == s@.len(),
                i <= n,
                count <= i,
                count == 0 ==> first == n && forall|j: int| 0 <= j < i ==> s@[j] != '/',
                count >= 1 ==> first < i && s@[first as int] == '/'
                    && forall|j: int| 0 <= j < first ==> s@[j] != '/',
                count == 1 ==> forall|j: int| 0 <= j < i && j != first ==> s@[j] != '/',
                count >= 2 ==> exists|j: int| 0 <= j < i && j != first && s@[j] == '/',
            decreases n - i,
        {
            if s.get_char(i) == '/' {
                if count == 0 {
                    first = i;
                }
                count = count + 1;
            }
            i = i + 1;
        }
        if count == 1 {
            let province = s.substring_char(0, first);
            let city = s.substring_char(first + 1, n);
            assert(single_separator(s@, first as int));
            Ok(Region::new(province, city))
        } else {
            let mut m = "地区格式错误: ".to_owned();
            m.append(s);
            m.append(" (应为 province/city)");
            Err(m)
        }
    }
}

impl std::str::FromStr for Region {
    type Err = String;

    fn from_str(s: &str) -> (r: Result<Region, String>)
        ensures
            r is Ok <==> exists|k: int| single_separator(s@, k),
            r matches Ok(reg) ==> exists|k: int|
                single_separator(s@, k) && reg.province@ == lowercase(s@.subrange(0, k))
                    && reg.city@ == lowercase(s@.subrange(k + 1, s@.len() as int)),
            r matches Err(m) ==> m@ == region_format_error(s@),
    {
        Region::parse(s)
    }
}


/// Parsing `province/city` built from two keys without '/' gives the region
/// that `Region::new` makes of the two keys: the separator is the one between
/// them, and the texts on its sides are the keys.
pub proof fn law_parse_joined_keys(p: Seq<char>, c: Seq<char>)
    requires
        forall|i: int| 0 <= i < p.len() ==> p[i] != '/',
        forall|i: int| 0 <= i < c.len() ==> c[i] != '/',
    ensures
        ({
            let s = p + seq!['/'] + c;
            &&& single_separator(s, p.len() as int)
            &&& forall|k: int| single_separator(s, k) ==> k == p.len()
            &&& s.subrange(0, p.len() as int) == p
            &&& s.subrange(p.len() as int + 1, s.len() as int) == c
        }),
{
    let s = p + seq!['/'] + c;
    assert forall|j: int| 0 <= j < s.len() && j != p.len() implies s[j] != '/' by {
        if j < p.len() {
            assert(s[j] == p[j]);
        } else {
            assert(s[j] == c[j - p.len() - 1]);
        }
    }
    assert(s[p.len() as int] == '/');
    assert(s.subrange(0, p.len() as int) =~= p);
    assert(s.subrange(p.len() as int + 1, s.len() as int) =~= c);
}

}
