use peak_valley_price::models::region::Region;

#[test]
fn test_region_creation() {
    let region = Region::new("jiangsu", "wuxi");
    assert_eq!(region.province, "jiangsu");
    assert_eq!(region.city, "wuxi");
}

#[test]
fn test_region_display() {
    let region = Region::jiangsu_wuxi();
    assert_eq!(region.display_name(), "江苏 无锡");
}

#[test]
fn test_region_from_str() {
    let region: Region = "jiangsu/wuxi".parse().unwrap();
    assert_eq!(region, Region::jiangsu_wuxi());
}

#[test]
fn region_new_lowercases_keys() {
    let region = Region::new("JiangSu", "WUXI");
    assert_eq!(region.province, "jiangsu");
    assert_eq!(region.city, "wuxi");
}

#[test]
fn region_display_names_every_supported_region() {
    assert_eq!(Region::new("shanghai", "shanghai").display_name(), "上海 上海");
    assert_eq!(Region::new("beijing", "beijing").display_name(), "北京 北京");
    assert_eq!(Region::new("jiangsu", "nanjing").display_name(), "江苏 南京");
    assert_eq!(Region::new("jiangsu", "suzhou").display_name(), "江苏 苏州");
    assert_eq!(Region::new("hubei", "wuhan").display_name(), "hubei wuhan");
    assert_eq!(Region::new("zhejiang", "hangzhou").display_name(), "浙江 杭州");
    assert_eq!(Region::new("guangdong", "shenzhen").display_name(), "广东 深圳");
}

#[test]
fn region_parse_rejects_other_shapes() {
    let e = "jiangsu".parse::<Region>().unwrap_err();
    assert_eq!(e, "地区格式错误: jiangsu (应为 province/city)");
    assert!("a/b/c".parse::<Region>().is_err());
    assert!("".parse::<Region>().is_err());
}

#[test]
fn region_parse_allows_empty_sides_and_lowercases() {
    let r: Region = "/".parse().unwrap();
    assert_eq!(r.province, "");
    assert_eq!(r.city, "");
    let r: Region = "ZheJiang/HangZhou".parse().unwrap();
    assert_eq!(r, Region::new("zhejiang", "hangzhou"));
}

#[test]
fn supported_regions_list() {
    let rs = Region::supported_regions();
    let keys: Vec<(String, String)> = rs.iter().map(|r| (r.province.clone(), r.city.clone())).collect();
    let want = vec![
        ("jiangsu", "wuxi"),
        ("jiangsu", "nanjing"),
        ("jiangsu", "suzhou"),
        ("zhejiang", "hangzhou"),
        ("shanghai", "shanghai"),
        ("guangdong", "shenzhen"),
        ("beijing", "beijing"),
    ];
    assert_eq!(keys.len(), want.len());
    for (k, w) in keys.iter().zip(want.iter()) {
        assert_eq!(k.0, w.0);
        assert_eq!(k.1, w.1);
    }
}
