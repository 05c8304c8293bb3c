//! The two compiled-in lookup tables: calling-code prefix to country
//! identifier, and country identifier to calling-code prefix.
//!
//! Prefix keys come in two forms. Keys below 1000 are plain one- to
//! three-digit country calling codes. Keys from 1000 to 1999 stand for the
//! North American Numbering Plan, where calling code 1 is always followed by
//! a three-digit area code: the key is the digit 1 and the area code read
//! together as a four-digit number. Where a calling code is shared by several
//! territories, the table holds one chosen representative.

use vstd::prelude::*;

verus! {

/// Calling codes of one or two digits.
pub open spec fn spec_prefix_country_low(p: int) -> Option<&'static str> {
    if p == 7 {
        Some("RU")
    } else if p == 20 {
        Some("EG")
    } else if p == 27 {
        Some("ZA")
    } else if p == 30 {
        Some("GR")
    } else if p == 31 {
        Some("NL")
    } else if p == 32 {
        Some("BE")
    } else if p == 33 {
        Some("FR")
    } else if p == 34 {
        Some("ES")
    } else if p == 36 {
        Some("HU")
    } else if p == 39 {
        Some("IT")
    } else if p == 40 {
        Some("RO")
    } else if p == 41 {
        Some("CH")
    } else if p == 43 {
        Some("AT")
    } else if p == 44 {
        Some("GB")
    } else if p == 45 {
        Some("DK")
    } else if p == 46 {
        Some("SE")
    } else if p == 47 {
        Some("NO")
    } else if p == 48 {
        Some("PL")
    } else if p == 49 {
        Some("DE")
    } else if p == 51 {
        Some("PE")
    } else if p == 52 {
        Some("MX")
    } else if p == 53 {
        Some("CU")
    } else if p == 54 {
        Some("AR")
    } else if p == 55 {
        Some("BR")
    } else if p == 56 {
        Some("CL")
    } else if p == 57 {
        Some("CO")
    } else if p == 58 {
        Some("VE")
    } else if p == 60 {
        Some("MY")
    } else if p == 61 {
        Some("AU")
    } else if p == 62 {
        Some("ID")
    } else if p == 63 {
        Some("PH")
    } else if p == 64 {
        Some("NZ")
    } else if p == 65 {
        Some("SG")
    } else if p == 66 {
        Some("TH")
    } else if p == 76 {
        Some("KZ")
    } else if p == 77 {
        Some("KZ")
    } else if p == 81 {
        Some("JP")
    } else if p == 82 {
        Some("KR")
    } else if p == 84 {
        Some("VN")
    } else if p == 86 {
        Some("CN")
    } else if p == 90 {
        Some("TR")
    } else if p == 91 {
        Some("IN")
    } else if p == 92 {
        Some("PK")
    } else if p == 93 {
        Some("AF")
    } else if p == 94 {
        Some("LK")
    } else if p == 95 {
        Some("MM")
    } else if p == 98 {
        Some("IR")
    } else {
        None
    }
}

/// Three-digit calling codes from 200 through 599.
pub open spec fn spec_prefix_country_mid(p: int) -> Option<&'static str> {
    if p == 211 {
        Some("SS")
    } else if p == 212 {
        Some("MA")
    } else if p == 213 {
        Some("DZ")
    } else if p == 216 {
        Some("TN")
    } else if p == 218 {
        Some("LY")
    } else if p == 220 {
        Some("GM")
    } else if p == 221 {
        Some("SN")
    } else if p == 222 {
        Some("MR")
    } else if p == 223 {
        Some("ML")
    } else if p == 224 {
        Some("GN")
    } else if p == 225 {
        Some("CI")
    } else if p == 226 {
        Some("BF")
    } else if p == 227 {
        Some("NE")
    } else if p == 228 {
        Some("TG")
    } else if p == 229 {
        Some("BJ")
    } else if p == 230 {
        Some("MU")
    } else if p == 231 {
        Some("LR")
    } else if p == 232 {
        Some("SL")
    } else if p == 233 {
        Some("GH")
    } else if p == 234 {
        Some("NG")
    } else if p == 235 {
        Some("TD")
    } else if p == 236 {
        Some("CF")
    } else if p == 237 {
        Some("CM")
    } else if p == 238 {
        Some("CV")
    } else if p == 239 {
        Some("ST")
    } else if p == 240 {
        Some("GQ")
    } else if p == 241 {
        Some("GA")
    } else if p == 242 {
        Some("CG")
    } else if p == 243 {
        Some("CD")
    } else if p == 244 {
        Some("AO")
    } else if p == 245 {
        Some("GW")
    } else if p == 246 {
        Some("IO")
    } else if p == 248 {
        Some("SC")
    } else if p == 249 {
        Some("SD")
    } else if p == 250 {
        Some("RW")
    } else if p == 251 {
        Some("ET")
    } else if p == 252 {
        Some("SO")
    } else if p == 253 {
        Some("DJ")
    } else if p == 254 {
        Some("KE")
    } else if p == 255 {
        Some("TZ")
    } else if p == 256 {
        Some("UG")
    } else if p == 257 {
        Some("BI")
    } else if p == 258 {
        Some("MZ")
    } else if p == 260 {
        Some("ZM")
    } else if p == 261 {
        Some("MG")
    } else if p == 262 {
        Some("YT")
    } else if p == 263 {
        Some("ZW")
    } else if p == 264 {
        Some("NA")
    } else if p == 265 {
        Some("MW")
    } else if p == 266 {
        Some("LS")
    } else if p == 267 {
        Some("BW")
    } else if p == 268 {
        Some("SZ")
    } else if p == 269 {
        Some("KM")
    } else if p == 290 {
        Some("SH")
    } else if p == 291 {
        Some("ER")
    } else if p == 297 {
        Some("AW")
    } else if p == 298 {
        Some("FO")
    } else if p == 299 {
        Some("GL")
    } else if p == 350 {
        Some("GI")
    } else if p == 351 {
        Some("PT")
    } else if p == 352 {
        Some("LU")
    } else if p == 353 {
        Some("IE")
    } else if p == 354 {
        Some("IS")
    } else if p == 355 {
        Some("AL")
    } else if p == 356 {
        Some("MT")
    } else if p == 357 {
        Some("CY")
    } else if p == 358 {
        Some("FI")
    } else if p == 359 {
        Some("BG")
    } else if p == 370 {
        Some("LT")
    } else if p == 371 {
        Some("LV")
    } else if p == 372 {
        Some("EE")
    } else if p == 373 {
        Some("MD")
    } else if p == 374 {
        Some("AM")
    } else if p == 375 {
        Some("BY")
    } else if p == 376 {
        Some("AD")
    } else if p == 377 {
        Some("MC")
    } else if p == 378 {
        Some("SM")
    } else if p == 379 {
        Some("VA")
    } else if p == 380 {
        Some("UA")
    } else if p == 381 {
        Some("RS")
    } else if p == 382 {
        Some("ME")
    } else if p == 385 {
        Some("HR")
    } else if p == 386 {
        Some("SI")
    } else if p == 387 {
        Some("BA")
    } else if p == 389 {
        Some("MK")
    } else if p == 420 {
        Some("CZ")
    } else if p == 421 {
        Some("SK")
    } else if p == 423 {
        Some("LI")
    } else if p == 500 {
        Some("FK")
    } else if p == 501 {
        Some("BZ")
    } else if p == 502 {
        Some("GT")
    } else if p == 503 {
        Some("SV")
    } else if p == 504 {
        Some("HN")
    } else if p == 505 {
        Some("NI")
    } else if p == 506 {
        Some("CR")
    } else if p == 507 {
        Some("PA")
    } else if p == 508 {
        Some("PM")
    } else if p == 509 {
        Some("HT")
    } else if p == 590 {
        Some("GP")
    } else if p == 591 {
        Some("BO")
    } else if p == 592 {
        Some("GY")
    } else if p == 593 {
        Some("EC")
    } else if p == 594 {
        Some("GF")
    } else if p == 595 {
        Some("PY")
    } else if p == 596 {
        Some("MQ")
    } else if p == 597 {
        Some("SR")
    } else if p == 598 {
        Some("UY")
    } else if p == 599 {
        Some("CW")
    } else {
        None
    }
}

/// Three-digit calling codes from 600 through 999.
pub open spec fn spec_prefix_country_high(p: int) -> Option<&'static str> {
    if p == 670 {
        Some("TL")
    } else if p == 672 {
        Some("NF")
    } else if p == 673 {
        Some("BN")
    } else if p == 674 {
        Some("NR")
    } else if p == 675 {
        Some("PG")
    } else if p == 676 {
        Some("TO")
    } else if p == 677 {
        Some("SB")
    } else if p == 678 {
        Some("VU")
    } else if p == 679 {
        Some("FJ")
    } else if p == 680 {
        Some("PW")
    } else if p == 681 {
        Some("WF")
    } else if p == 682 {
        Some("CK")
    } else if p == 683 {
        Some("NU")
    } else if p == 685 {
        Some("WS")
    } else if p == 686 {
        Some("KI")
    } else if p == 687 {
        Some("NC")
    } else if p == 688 {
        Some("TV")
    } else if p == 689 {
        Some("PF")
    } else if p == 690 {
        Some("TK")
    } else if p == 691 {
        Some("FM")
    } else if p == 692 {
        Some("MH")
    } else if p == 850 {
        Some("KP")
    } else if p == 852 {
        Some("HK")
    } else if p == 853 {
        Some("MO")
    } else if p == 855 {
        Some("KH")
    } else if p == 856 {
        Some("LA")
    } else if p == 880 {
        Some("BD")
    } else if p == 886 {
        Some("TW")
    } else if p == 960 {
        Some("MV")
    } else if p == 961 {
        Some("LB")
    } else if p == 962 {
        Some("JO")
    } else if p == 963 {
        Some("SY")
    } else if p == 964 {
        Some("IQ")
    } else if p == 965 {
        Some("KW")
    } else if p == 966 {
        Some("SA")
    } else if p == 967 {
        Some("YE")
    } else if p == 968 {
        Some("OM")
    } else if p == 970 {
        Some("PS")
    } else if p == 971 {
        Some("AE")
    } else if p == 972 {
        Some("IL")
    } else if p == 973 {
        Some("BH")
    } else if p == 974 {
        Some("QA")
    } else if p == 975 {
        Some("BT")
    } else if p == 976 {
        Some("MN")
    } else if p == 977 {
        Some("NP")
    } else if p == 992 {
        Some("TJ")
    } else if p == 993 {
        Some("TM")
    } else if p == 994 {
        Some("AZ")
    } else if p == 995 {
        Some("GE")
    } else if p == 996 {
        Some("KG")
    } else if p == 998 {
        Some("UZ")
    } else {
        None
    }
}

/// Four-digit keys for area codes 200 through 599 of numbering zone 1.
pub open spec fn spec_prefix_country_nanp_a(p: int) -> Option<&'static str> {
    if p == 1201 {
        Some("US")
    } else if p == 1202 {
        Some("US")
    } else if p == 1203 {
        Some("US")
    } else if p == 1204 {
        Some("CA")
    } else if p == 1205 {
        Some("US")
    } else if p == 1206 {
        Some("US")
    } else if p == 1207 {
        Some("US")
    } else if p == 1208 {
        Some("US")
    } else if p == 1209 {
        Some("US")
    } else if p == 1210 {
        Some("US")
    } else if p == 1212 {
        Some("US")
    } else if p == 1213 {
        Some("US")
    } else if p == 1214 {
        Some("US")
    } else if p == 1215 {
        Some("US")
    } else if p == 1216 {
        Some("US")
    } else if p == 1217 {
        Some("US")
    } else if p == 1218 {
        Some("US")
    } else if p == 1219 {
        Some("US")
    } else if p == 1224 {
        Some("US")
    } else if p == 1225 {
        Some("US")
    } else if p == 1226 {
        Some("CA")
    } else if p == 1228 {
        Some("US")
    } else if p == 1229 {
        Some("US")
    } else if p == 1231 {
        Some("US")
    } else if p == 1234 {
        Some("US")
    } else if p == 1236 {
        Some("CA")
    } else if p == 1239 {
        Some("US")
    } else if p == 1240 {
        Some("US")
    } else if p == 1242 {
        Some("BS")
    } else if p == 1246 {
        Some("BB")
    } else if p == 1248 {
        Some("US")
    } else if p == 1249 {
        Some("CA")
    } else if p == 1250 {
        Some("CA")
    } else if p == 1251 {
        Some("US")
    } else if p == 1252 {
        Some("US")
    } else if p == 1253 {
        Some("US")
    } else if p == 1254 {
        Some("US")
    } else if p == 1256 {
        Some("US")
    } else if p == 1260 {
        Some("US")
    } else if p == 1262 {
        Some("US")
    } else if p == 1264 {
        Some("AI")
    } else if p == 1267 {
        Some("US")
    } else if p == 1268 {
        Some("AG")
    } else if p == 1269 {
        Some("US")
    } else if p == 1270 {
        Some("US")
    } else if p == 1276 {
        Some("US")
    } else if p == 1281 {
        Some("US")
    } else if p == 1284 {
        Some("VG")
    } else if p == 1289 {
        Some("CA")
    } else if p == 1301 {
        Some("US")
    } else if p == 1302 {
        Some("US")
    } else if p == 1303 {
        Some("US")
    } else if p == 1304 {
        Some("US")
    } else if p == 1305 {
        Some("US")
    } else if p == 1306 {
        Some("CA")
    } else if p == 1307 {
        Some("US")
    } else if p == 1308 {
        Some("US")
    } else if p == 1309 {
        Some("US")
    } else if p == 1310 {
        Some("US")
    } else if p == 1312 {
        Some("US")
    } else if p == 1313 {
        Some("US")
    } else if p == 1314 {
        Some("US")
    } else if p == 1315 {
        Some("US")
    } else if p == 1316 {
        Some("US")
    } else if p == 1317 {
        Some("US")
    } else if p == 1318 {
        Some("US")
    } else if p == 1319 {
        Some("US")
    } else if p == 1320 {
        Some("US")
    } else if p == 1321 {
        Some("US")
    } else if p == 1323 {
        Some("US")
    } else if p == 1325 {
        Some("US")
    } else if p == 1330 {
        Some("US")
    } else if p == 1331 {
        Some("US")
    } else if p == 1334 {
        Some("US")
    } else if p == 1336 {
        Some("US")
    } else if p == 1337 {
        Some("US")
    } else if p == 1339 {
        Some("US")
    } else if p == 1340 {
        Some("VI")
    } else if p == 1343 {
        Some("CA")
    } else if p == 1345 {
        Some("KY")
    } else if p == 1347 {
        Some("US")
    } else if p == 1351 {
        Some("US")
    } else if p == 1352 {
        Some("US")
    } else if p == 1360 {
        Some("US")
    } else if p == 1361 {
        Some("US")
    } else if p == 1386 {
        Some("US")
    } else if p == 1401 {
        Some("US")
    } else if p == 1402 {
        Some("US")
    } else if p == 1403 {
        Some("CA")
    } else if p == 1404 {
        Some("US")
    } else if p == 1405 {
        Some("US")
    } else if p == 1406 {
        Some("US")
    } else if p == 1407 {
        Some("US")
    } else if p == 1408 {
        Some("US")
    } else if p == 1409 {
        Some("US")
    } else if p == 1410 {
        Some("US")
    } else if p == 1412 {
        Some("US")
    } else if p == 1413 {
        Some("US")
    } else if p == 1414 {
        Some("US")
    } else if p == 1415 {
        Some("US")
    } else if p == 1416 {
        Some("CA")
    } else if p == 1417 {
        Some("US")
    } else if p == 1418 {
        Some("CA")
    } else if p == 1419 {
        Some("US")
    } else if p == 1423 {
        Some("US")
    } else if p == 1424 {
        Some("US")
    } else if p == 1425 {
        Some("US")
    } else if p == 1430 {
        Some("US")
    } else if p == 1432 {
        Some("US")
    } else if p == 1434 {
        Some("US")
    } else if p == 1435 {
        Some("US")
    } else if p == 1438 {
        Some("CA")
    } else if p == 1440 {
        Some("US")
    } else if p == 1441 {
        Some("BM")
    } else if p == 1443 {
        Some("US")
    } else if p == 1450 {
        Some("CA")
    } else if p == 1469 {
        Some("US")
    } else if p == 1473 {
        Some("GD")
    } else if p == 1475 {
        Some("US")
    } else if p == 1478 {
        Some("US")
    } else if p == 1479 {
        Some("US")
    } else if p == 1480 {
        Some("US")
    } else if p == 1484 {
        Some("US")
    } else if p == 1501 {
        Some("US")
    } else if p == 1502 {
        Some("US")
    } else if p == 1503 {
        Some("US")
    } else if p == 1504 {
        Some("US")
    } else if p == 1505 {
        Some("US")
    } else if p == 1506 {
        Some("CA")
    } else if p == 1507 {
        Some("US")
    } else if p == 1508 {
        Some("US")
    } else if p == 1509 {
        Some("US")
    } else if p == 1510 {
        Some("US")
    } else if p == 1512 {
        Some("US")
    } else if p == 1513 {
        Some("US")
    } else if p == 1514 {
        Some("CA")
    } else if p == 1515 {
        Some("US")
    } else if p == 1516 {
        Some("US")
    } else if p == 1517 {
        Some("US")
    } else if p == 1518 {
        Some("US")
    } else if p == 1519 {
        Some("CA")
    } else if p == 1520 {
        Some("US")
    } else if p == 1530 {
        Some("US")
    } else if p == 1540 {
        Some("US")
    } else if p == 1541 {
        Some("US")
    } else if p == 1551 {
        Some("US")
    } else if p == 1559 {
        Some("US")
    } else if p == 1561 {
        Some("US")
    } else if p == 1562 {
        Some("US")
    } else if p == 1563 {
        Some("US")
    } else if p == 1570 {
        Some("US")
    } else if p == 1571 {
        Some("US")
    } else if p == 1573 {
        Some("US")
    } else if p == 1574 {
        Some("US")
    } else if p == 1575 {
        Some("US")
    } else if p == 1579 {
        Some("CA")
    } else if p == 1580 {
        Some("US")
    } else if p == 1581 {
        Some("CA")
    } else if p == 1585 {
        Some("US")
    } else if p == 1586 {
        Some("US")
    } else if p == 1587 {
        Some("CA")
    } else {
        None
    }
}

/// Four-digit keys for area codes 600 through 999 of numbering zone 1.
pub open spec fn spec_prefix_country_nanp_b(p: int) -> Option<&'static str> {
    if p == 1601 {
        Some("US")
    } else if p == 1602 {
        Some("US")
    } else if p == 1603 {
        Some("US")
    } else if p == 1604 {
        Some("CA")
    } else if p == 1605 {
        Some("US")
    } else if p == 1606 {
        Some("US")
    } else if p == 1607 {
        Some("US")
    } else if p == 1608 {
        Some("US")
    } else if p == 1609 {
        Some("US")
    } else if p == 1610 {
        Some("US")
    } else if p == 1612 {
        Some("US")
    } else if p == 1613 {
        Some("CA")
    } else if p == 1614 {
        Some("US")
    } else if p == 1615 {
        Some("US")
    } else if p == 1616 {
        Some("US")
    } else if p == 1617 {
        Some("US")
    } else if p == 1618 {
        Some("US")
    } else if p == 1619 {
        Some("US")
    } else if p == 1620 {
        Some("US")
    } else if p == 1623 {
        Some("US")
    } else if p == 1626 {
        Some("US")
    } else if p == 1630 {
        Some("US")
    } else if p == 1631 {
        Some("US")
    } else if p == 1636 {
        Some("US")
    } else if p == 1641 {
        Some("US")
    } else if p == 1646 {
        Some("US")
    } else if p == 1647 {
        Some("CA")
    } else if p == 1649 {
        Some("TC")
    } else if p == 1650 {
        Some("US")
    } else if p == 1651 {
        Some("US")
    } else if p == 1660 {
        Some("US")
    } else if p == 1661 {
        Some("US")
    } else if p == 1662 {
        Some("US")
    } else if p == 1664 {
        Some("MS")
    } else if p == 1670 {
        Some("MP")
    } else if p == 1671 {
        Some("GU")
    } else if p == 1678 {
        Some("US")
    } else if p == 1682 {
        Some("US")
    } else if p == 1684 {
        Some("AS")
    } else if p == 1701 {
        Some("US")
    } else if p == 1702 {
        Some("US")
    } else if p == 1703 {
        Some("US")
    } else if p == 1704 {
        Some("US")
    } else if p == 1705 {
        Some("CA")
    } else if p == 1706 {
        Some("US")
    } else if p == 1707 {
        Some("US")
    } else if p == 1708 {
        Some("US")
    } else if p == 1709 {
        Some("CA")
    } else if p == 1712 {
        Some("US")
    } else if p == 1713 {
        Some("US")
    } else if p == 1714 {
        Some("US")
    } else if p == 1715 {
        Some("US")
    } else if p == 1716 {
        Some("US")
    } else if p == 1717 {
        Some("US")
    } else if p == 1718 {
        Some("US")
    } else if p == 1719 {
        Some("US")
    } else if p == 1720 {
        Some("US")
    } else if p == 1721 {
        Some("SX")
    } else if p == 1724 {
        Some("US")
    } else if p == 1727 {
        Some("US")
    } else if p == 1731 {
        Some("US")
    } else if p == 1732 {
        Some("US")
    } else if p == 1734 {
        Some("US")
    } else if p == 1740 {
        Some("US")
    } else if p == 1754 {
        Some("US")
    } else if p == 1757 {
        Some("US")
    } else if p == 1758 {
        Some("LC")
    } else if p == 1760 {
        Some("US")
    } else if p == 1763 {
        Some("US")
    } else if p == 1765 {
        Some("US")
    } else if p == 1767 {
        Some("DM")
    } else if p == 1770 {
        Some("US")
    } else if p == 1772 {
        Some("US")
    } else if p == 1773 {
        Some("US")
    } else if p == 1774 {
        Some("US")
    } else if p == 1775 {
        Some("US")
    } else if p == 1778 {
        Some("CA")
    } else if p == 1780 {
        Some("CA")
    } else if p == 1781 {
        Some("US")
    } else if p == 1784 {
        Some("VC")
    } else if p == 1785 {
        Some("US")
    } else if p == 1786 {
        Some("US")
    } else if p == 1787 {
        Some("PR")
    } else if p == 1801 {
        Some("US")
    } else if p == 1802 {
        Some("US")
    } else if p == 1803 {
        Some("US")
    } else if p == 1804 {
        Some("US")
    } else if p == 1805 {
        Some("US")
    } else if p == 1806 {
        Some("US")
    } else if p == 1807 {
        Some("CA")
    } else if p == 1808 {
        Some("US")
    } else if p == 1809 {
        Some("DO")
    } else if p == 1810 {
        Some("US")
    } else if p == 1812 {
        Some("US")
    } else if p == 1813 {
        Some("US")
    } else if p == 1814 {
        Some("US")
    } else if p == 1815 {
        Some("US")
    } else if p == 1816 {
        Some("US")
    } else if p == 1817 {
        Some("US")
    } else if p == 1818 {
        Some("US")
    } else if p == 1819 {
        Some("CA")
    } else if p == 1828 {
        Some("US")
    } else if p == 1829 {
        Some("DO")
    } else if p == 1830 {
        Some("US")
    } else if p == 1831 {
        Some("US")
    } else if p == 1832 {
        Some("US")
    } else if p == 1843 {
        Some("US")
    } else if p == 1845 {
        Some("US")
    } else if p == 1847 {
        Some("US")
    } else if p == 1848 {
        Some("US")
    } else if p == 1849 {
        Some("DO")
    } else if p == 1850 {
        Some("US")
    } else if p == 1856 {
        Some("US")
    } else if p == 1857 {
        Some("US")
    } else if p == 1858 {
        Some("US")
    } else if p == 1859 {
        Some("US")
    } else if p == 1860 {
        Some("US")
    } else if p == 1862 {
        Some("US")
    } else if p == 1863 {
        Some("US")
    } else if p == 1864 {
        Some("US")
    } else if p == 1865 {
        Some("US")
    } else if p == 1867 {
        Some("CA")
    } else if p == 1868 {
        Some("TT")
    } else if p == 1869 {
        Some("KN")
    } else if p == 1870 {
        Some("US")
    } else if p == 1876 {
        Some("JM")
    } else if p == 1878 {
        Some("US")
    } else if p == 1901 {
        Some("US")
    } else if p == 1902 {
        Some("CA")
    } else if p == 1903 {
        Some("US")
    } else if p == 1904 {
        Some("US")
    } else if p == 1905 {
        Some("CA")
    } else if p == 1906 {
        Some("US")
    } else if p == 1907 {
        Some("US")
    } else if p == 1908 {
        Some("US")
    } else if p == 1909 {
        Some("US")
    } else if p == 1910 {
        Some("US")
    } else if p == 1912 {
        Some("US")
    } else if p == 1913 {
        Some("US")
    } else if p == 1914 {
        Some("US")
    } else if p == 1915 {
        Some("US")
    } else if p == 1916 {
        Some("US")
    } else if p == 1917 {
        Some("US")
    } else if p == 1918 {
        Some("US")
    } else if p == 1919 {
        Some("US")
    } else if p == 1920 {
        Some("US")
    } else if p == 1925 {
        Some("US")
    } else if p == 1928 {
        Some("US")
    } else if p == 1931 {
        Some("US")
    } else if p == 1936 {
        Some("US")
    } else if p == 1937 {
        Some("US")
    } else if p == 1939 {
        Some("PR")
    } else if p == 1940 {
        Some("US")
    } else if p == 1941 {
        Some("US")
    } else if p == 1947 {
        Some("US")
    } else if p == 1949 {
        Some("US")
    } else if p == 1951 {
        Some("US")
    } else if p == 1952 {
        Some("US")
    } else if p == 1954 {
        Some("US")
    } else if p == 1956 {
        Some("US")
    } else if p == 1970 {
        Some("US")
    } else if p == 1971 {
        Some("US")
    } else if p == 1972 {
        Some("US")
    } else if p == 1973 {
        Some("US")
    } else if p == 1978 {
        Some("US")
    } else if p == 1979 {
        Some("US")
    } else if p == 1980 {
        Some("US")
    } else if p == 1985 {
        Some("US")
    } else if p == 1989 {
        Some("US")
    } else {
        None
    }
}

/// The full prefix table: the country identifier filed under a prefix key,
/// or `None` where the key is absent.
pub open spec fn spec_prefix_country(p: int) -> Option<&'static str> {
    if p < 200 {
        spec_prefix_country_low(p)
    } else if p < 600 {
        spec_prefix_country_mid(p)
    } else if p < 1000 {
        spec_prefix_country_high(p)
    } else if p < 1600 {
        spec_prefix_country_nanp_a(p)
    } else if p < 2000 {
        spec_prefix_country_nanp_b(p)
    } else {
        None
    }
}

pub(crate) fn prefix_country_low(p: u32) -> (r: Option<&'static str>)
    ensures
        r == spec_prefix_country_low(p as int),
{
    if p == 7 {
        Some("RU")
    } else if p == 20 {
        Some("EG")
    } else if p == 27 {
        Some("ZA")
    } else if p == 30 {
        Some("GR")
    } else if p == 31 {
        Some("NL")
    } else if p == 32 {
        Some("BE")
    } else if p == 33 {
        Some("FR")
    } else if p == 34 {
        Some("ES")
    } else if p == 36 {
        Some("HU")
    } else if p == 39 {
        Some("IT")
    } else if p == 40 {
        Some("RO")
    } else if p == 41 {
        Some("CH")
    } else if p == 43 {
        Some("AT")
    } else if p == 44 {
        Some("GB")
    } else if p == 45 {
        Some("DK")
    } else if p == 46 {
        Some("SE")
    } else if p == 47 {
        Some("NO")
    } else if p == 48 {
        Some("PL")
    } else if p == 49 {
        Some("DE")
    } else if p == 51 {
        Some("PE")
    } else if p == 52 {
        Some("MX")
    } else if p == 53 {
        Some("CU")
    } else if p == 54 {
        Some("AR")
    } else if p == 55 {
        Some("BR")
    } else if p == 56 {
        Some("CL")
    } else if p == 57 {
        Some("CO")
    } else if p == 58 {
        Some("VE")
    } else if p == 60 {
        Some("MY")
    } else if p == 61 {
        Some("AU")
    } else if p == 62 {
        Some("ID")
    } else if p == 63 {
        Some("PH")
    } else if p == 64 {
        Some("NZ")
    } else if p == 65 {
        Some("SG")
    } else if p == 66 {
        Some("TH")
    } else if p == 76 {
        Some("KZ")
    } else if p == 77 {
        Some("KZ")
    } else if p == 81 {
        Some("JP")
    } else if p == 82 {
        Some("KR")
    } else if p == 84 {
        Some("VN")
    } else if p == 86 {
        Some("CN")
    } else if p == 90 {
        Some("TR")
    } else if p == 91 {
        Some("IN")
    } else if p == 92 {
        Some("PK")
    } else if p == 93 {
        Some("AF")
    } else if p == 94 {
        Some("LK")
    } else if p == 95 {
        Some("MM")
    } else if p == 98 {
        Some("IR")
    } else {
        None
    }
}

pub(crate) fn prefix_country_mid(p: u32) -> (r: Option<&'static str>)
    ensures
        r == spec_prefix_country_mid(p as int),
{
    if p == 211 {
        Some("SS")
    } else if p == 212 {
        Some("MA")
    } else if p == 213 {
        Some("DZ")
    } else if p == 216 {
        Some("TN")
    } else if p == 218 {
        Some("LY")
    } else if p == 220 {
        Some("GM")
    } else if p == 221 {
        Some("SN")
    } else if p == 222 {
        Some("MR")
    } else if p == 223 {
        Some("ML")
    } else if p == 224 {
        Some("GN")
    } else if p == 225 {
        Some("CI")
    } else if p == 226 {
        Some("BF")
    } else if p == 227 {
        Some("NE")
    } else if p == 228 {
        Some("TG")
    } else if p == 229 {
        Some("BJ")
    } else if p == 230 {
        Some("MU")
    } else if p == 231 {
        Some("LR")
    } else if p == 232 {
        Some("SL")
    } else if p == 233 {
        Some("GH")
    } else if p == 234 {
        Some("NG")
    } else if p == 235 {
        Some("TD")
    } else if p == 236 {
        Some("CF")
    } else if p == 237 {
        Some("CM")
    } else if p == 238 {
        Some("CV")
    } else if p == 239 {
        Some("ST")
    } else if p == 240 {
        Some("GQ")
    } else if p == 241 {
        Some("GA")
    } else if p == 242 {
        Some("CG")
    } else if p == 243 {
        Some("CD")
    } else if p == 244 {
        Some("AO")
    } else if p == 245 {
        Some("GW")
    } else if p == 246 {
        Some("IO")
    } else if p == 248 {
        Some("SC")
    } else if p == 249 {
        Some("SD")
    } else if p == 250 {
        Some("RW")
    } else if p == 251 {
        Some("ET")
    } else if p == 252 {
        Some("SO")
    } else if p == 253 {
        Some("DJ")
    } else if p == 254 {
        Some("KE")
    } else if p == 255 {
        Some("TZ")
    } else if p == 256 {
        Some("UG")
    } else if p == 257 {
        Some("BI")
    } else if p == 258 {
        Some("MZ")
    } else if p == 260 {
        Some("ZM")
    } else if p == 261 {
        Some("MG")
    } else if p == 262 {
        Some("YT")
    } else if p == 263 {
        Some("ZW")
    } else if p == 264 {
        Some("NA")
    } else if p == 265 {
        Some("MW")
    } else if p == 266 {
        Some("LS")
    } else if p == 267 {
        Some("BW")
    } else if p == 268 {
        Some("SZ")
    } else if p == 269 {
        Some("KM")
    } else if p == 290 {
        Some("SH")
    } else if p == 291 {
        Some("ER")
    } else if p == 297 {
        Some("AW")
    } else if p == 298 {
        Some("FO")
    } else if p == 299 {
        Some("GL")
    } else if p == 350 {
        Some("GI")
    } else if p == 351 {
        Some("PT")
    } else if p == 352 {
        Some("LU")
    } else if p == 353 {
        Some("IE")
    } else if p == 354 {
        Some("IS")
    } else if p == 355 {
        Some("AL")
    } else if p == 356 {
        Some("MT")
    } else if p == 357 {
        Some("CY")
    } else if p == 358 {
        Some("FI")
    } else if p == 359 {
        Some("BG")
    } else if p == 370 {
        Some("LT")
    } else if p == 371 {
        Some("LV")
    } else if p == 372 {
        Some("EE")
    } else if p == 373 {
        Some("MD")
    } else if p == 374 {
        Some("AM")
    } else if p == 375 {
        Some("BY")
    } else if p == 376 {
        Some("AD")
    } else if p == 377 {
        Some("MC")
    } else if p == 378 {
        Some("SM")
    } else if p == 379 {
        Some("VA")
    } else if p == 380 {
        Some("UA")
    } else if p == 381 {
        Some("RS")
    } else if p == 382 {
        Some("ME")
    } else if p == 385 {
        Some("HR")
    } else if p == 386 {
        Some("SI")
    } else if p == 387 {
        Some("BA")
    } else if p == 389 {
        Some("MK")
    } else if p == 420 {
        Some("CZ")
    } else if p == 421 {
        Some("SK")
    } else if p == 423 {
        Some("LI")
    } else if p == 500 {
        Some("FK")
    } else if p == 501 {
        Some("BZ")
    } else if p == 502 {
        Some("GT")
    } else if p == 503 {
        Some("SV")
    } else if p == 504 {
        Some("HN")
    } else if p == 505 {
        Some("NI")
    } else if p == 506 {
        Some("CR")
    } else if p == 507 {
        Some("PA")
    } else if p == 508 {
        Some("PM")
    } else if p == 509 {
        Some("HT")
    } else if p == 590 {
        Some("GP")
    } else if p == 591 {
        Some("BO")
    } else if p == 592 {
        Some("GY")
    } else if p == 593 {
        Some("EC")
    } else if p == 594 {
        Some("GF")
    } else if p == 595 {
        Some("PY")
    } else if p == 596 {
        Some("MQ")
    } else if p == 597 {
        Some("SR")
    } else if p == 598 {
        Some("UY")
    } else if p == 599 {
        Some("CW")
    } else {
        None
    }
}

pub(crate) fn prefix_country_high(p: u32) -> (r: Option<&'static str>)
    ensures
        r == spec_prefix_country_high(p as int),
{
    if p == 670 {
        Some("TL")
    } else if p == 672 {
        Some("NF")
    } else if p == 673 {
        Some("BN")
    } else if p == 674 {
        Some("NR")
    } else if p == 675 {
        Some("PG")
    } else if p == 676 {
        Some("TO")
    } else if p == 677 {
        Some("SB")
    } else if p == 678 {
        Some("VU")
    } else if p == 679 {
        Some("FJ")
    } else if p == 680 {
        Some("PW")
    } else if p == 681 {
        Some("WF")
    } else if p == 682 {
        Some("CK")
    } else if p == 683 {
        Some("NU")
    } else if p == 685 {
        Some("WS")
    } else if p == 686 {
        Some("KI")
    } else if p == 687 {
        Some("NC")
    } else if p == 688 {
        Some("TV")
    } else if p == 689 {
        Some("PF")
    } else if p == 690 {
        Some("TK")
    } else if p == 691 {
        Some("FM")
    } else if p == 692 {
        Some("MH")
    } else if p == 850 {
        Some("KP")
    } else if p == 852 {
        Some("HK")
    } else if p == 853 {
        Some("MO")
    } else if p == 855 {
        Some("KH")
    } else if p == 856 {
        Some("LA")
    } else if p == 880 {
        Some("BD")
    } else if p == 886 {
        Some("TW")
    } else if p == 960 {
        Some("MV")
    } else if p == 961 {
        Some("LB")
    } else if p == 962 {
        Some("JO")
    } else if p == 963 {
        Some("SY")
    } else if p == 964 {
        Some("IQ")
    } else if p == 965 {
        Some("KW")
    } else if p == 966 {
        Some("SA")
    } else if p == 967 {
        Some("YE")
    } else if p == 968 {
        Some("OM")
    } else if p == 970 {
        Some("PS")
    } else if p == 971 {
        Some("AE")
    } else if p == 972 {
        Some("IL")
    } else if p == 973 {
        Some("BH")
    } else if p == 974 {
        Some("QA")
    } else if p == 975 {
        Some("BT")
    } else if p == 976 {
        Some("MN")
    } else if p == 977 {
        Some("NP")
    } else if p == 992 {
        Some("TJ")
    } else if p == 993 {
        Some("TM")
    } else if p == 994 {
        Some("AZ")
    } else if p == 995 {
        Some("GE")
    } else if p == 996 {
        Some("KG")
    } else if p == 998 {
        Some("UZ")
    } else {
        None
    }
}

pub(crate) fn prefix_country_nanp_a(p: u32) -> (r: Option<&'static str>)
    ensures
        r == spec_prefix_country_nanp_a(p as int),
{
    if p == 1201 {
        Some("US")
    } else if p == 1202 {
        Some("US")
    } else if p == 1203 {
        Some("US")
    } else if p == 1204 {
        Some("CA")
    } else if p == 1205 {
        Some("US")
    } else if p == 1206 {
        Some("US")
    } else if p == 1207 {
        Some("US")
    } else if p == 1208 {
        Some("US")
    } else if p == 1209 {
        Some("US")
    } else if p == 1210 {
        Some("US")
    } else if p == 1212 {
        Some("US")
    } else if p == 1213 {
        Some("US")
    } else if p == 1214 {
        Some("US")
    } else if p == 1215 {
        Some("US")
    } else if p == 1216 {
        Some("US")
    } else if p == 1217 {
        Some("US")
    } else if p == 1218 {
        Some("US")
    } else if p == 1219 {
        Some("US")
    } else if p == 1224 {
        Some("US")
    } else if p == 1225 {
        Some("US")
    } else if p == 1226 {
        Some("CA")
    } else if p == 1228 {
        Some("US")
    } else if p == 1229 {
        Some("US")
    } else if p == 1231 {
        Some("US")
    } else if p == 1234 {
        Some("US")
    } else if p == 1236 {
        Some("CA")
    } else if p == 1239 {
        Some("US")
    } else if p == 1240 {
        Some("US")
    } else if p == 1242 {
        Some("BS")
    } else if p == 1246 {
        Some("BB")
    } else if p == 1248 {
        Some("US")
    } else if p == 1249 {
        Some("CA")
    } else if p == 1250 {
        Some("CA")
    } else if p == 1251 {
        Some("US")
    } else if p == 1252 {
        Some("US")
    } else if p == 1253 {
        Some("US")
    } else if p == 1254 {
        Some("US")
    } else if p == 1256 {
        Some("US")
    } else if p == 1260 {
        Some("US")
    } else if p == 1262 {
        Some("US")
    } else if p == 1264 {
        Some("AI")
    } else if p == 1267 {
        Some("US")
    } else if p == 1268 {
        Some("AG")
    } else if p == 1269 {
        Some("US")
    } else if p == 1270 {
        Some("US")
    } else if p == 1276 {
        Some("US")
    } else if p == 1281 {
        Some("US")
    } else if p == 1284 {
        Some("VG")
    } else if p == 1289 {
        Some("CA")
    } else if p == 1301 {
        Some("US")
    } else if p == 1302 {
        Some("US")
    } else if p == 1303 {
        Some("US")
    } else if p == 1304 {
        Some("US")
    } else if p == 1305 {
        Some("US")
    } else if p == 1306 {
        Some("CA")
    } else if p == 1307 {
        Some("US")
    } else if p == 1308 {
        Some("US")
    } else if p == 1309 {
        Some("US")
    } else if p == 1310 {
        Some("US")
    } else if p == 1312 {
        Some("US")
    } else if p == 1313 {
        Some("US")
    } else if p == 1314 {
        Some("US")
    } else if p == 1315 {
        Some("US")
    } else if p == 1316 {
        Some("US")
    } else if p == 1317 {
        Some("US")
    } else if p == 1318 {
        Some("US")
    } else if p == 1319 {
        Some("US")
    } else if p == 1320 {
        Some("US")
    } else if p == 1321 {
        Some("US")
    } else if p == 1323 {
        Some("US")
    } else if p == 1325 {
        Some("US")
    } else if p == 1330 {
        Some("US")
    } else if p == 1331 {
        Some("US")
    } else if p == 1334 {
        Some("US")
    } else if p == 1336 {
        Some("US")
    } else if p == 1337 {
        Some("US")
    } else if p == 1339 {
        Some("US")
    } else if p == 1340 {
        Some("VI")
    } else if p == 1343 {
        Some("CA")
    } else if p == 1345 {
        Some("KY")
    } else if p == 1347 {
        Some("US")
    } else if p == 1351 {
        Some("US")
    } else if p == 1352 {
        Some("US")
    } else if p == 1360 {
        Some("US")
    } else if p == 1361 {
        Some("US")
    } else if p == 1386 {
        Some("US")
    } else if p == 1401 {
        Some("US")
    } else if p == 1402 {
        Some("US")
    } else if p == 1403 {
        Some("CA")
    } else if p == 1404 {
        Some("US")
    } else if p == 1405 {
        Some("US")
    } else if p == 1406 {
        Some("US")
    } else if p == 1407 {
        Some("US")
    } else if p == 1408 {
        Some("US")
    } else if p == 1409 {
        Some("US")
    } else if p == 1410 {
        Some("US")
    } else if p == 1412 {
        Some("US")
    } else if p == 1413 {
        Some("US")
    } else if p == 1414 {
        Some("US")
    } else if p == 1415 {
        Some("US")
    } else if p == 1416 {
        Some("CA")
    } else if p == 1417 {
        Some("US")
    } else if p == 1418 {
        Some("CA")
    } else if p == 1419 {
        Some("US")
    } else if p == 1423 {
        Some("US")
    } else if p == 1424 {
        Some("US")
    } else if p == 1425 {
        Some("US")
    } else if p == 1430 {
        Some("US")
    } else if p == 1432 {
        Some("US")
    } else if p == 1434 {
        Some("US")
    } else if p == 1435 {
        Some("US")
    } else if p == 1438 {
        Some("CA")
    } else if p == 1440 {
        Some("US")
    } else if p == 1441 {
        Some("BM")
    } else if p == 1443 {
        Some("US")
    } else if p == 1450 {
        Some("CA")
    } else if p == 1469 {
        Some("US")
    } else if p == 1473 {
        Some("GD")
    } else if p == 1475 {
        Some("US")
    } else if p == 1478 {
        Some("US")
    } else if p == 1479 {
        Some("US")
    } else if p == 1480 {
        Some("US")
    } else if p == 1484 {
        Some("US")
    } else if p == 1501 {
        Some("US")
    } else if p == 1502 {
        Some("US")
    } else if p == 1503 {
        Some("US")
    } else if p == 1504 {
        Some("US")
    } else if p == 1505 {
        Some("US")
    } else if p == 1506 {
        Some("CA")
    } else if p == 1507 {
        Some("US")
    } else if p == 1508 {
        Some("US")
    } else if p == 1509 {
        Some("US")
    } else if p == 1510 {
        Some("US")
    } else if p == 1512 {
        Some("US")
    } else if p == 1513 {
        Some("US")
    } else if p == 1514 {
        Some("CA")
    } else if p == 1515 {
        Some("US")
    } else if p == 1516 {
        Some("US")
    } else if p == 1517 {
        Some("US")
    } else if p == 1518 {
        Some("US")
    } else if p == 1519 {
        Some("CA")
    } else if p == 1520 {
        Some("US")
    } else if p == 1530 {
        Some("US")
    } else if p == 1540 {
        Some("US")
    } else if p == 1541 {
        Some("US")
    } else if p == 1551 {
        Some("US")
    } else if p == 1559 {
        Some("US")
    } else if p == 1561 {
        Some("US")
    } else if p == 1562 {
        Some("US")
    } else if p == 1563 {
        Some("US")
    } else if p == 1570 {
        Some("US")
    } else if p == 1571 {
        Some("US")
    } else if p == 1573 {
        Some("US")
    } else if p == 1574 {
        Some("US")
    } else if p == 1575 {
        Some("US")
    } else if p == 1579 {
        Some("CA")
    } else if p == 1580 {
        Some("US")
    } else if p == 1581 {
        Some("CA")
    } else if p == 1585 {
        Some("US")
    } else if p == 1586 {
        Some("US")
    } else if p == 1587 {
        Some("CA")
    } else {
        None
    }
}

pub(crate) fn prefix_country_nanp_b(p: u32) -> (r: Option<&'static str>)
    ensures
        r == spec_prefix_country_nanp_b(p as int),
{
    if p == 1601 {
        Some("US")
    } else if p == 1602 {
        Some("US")
    } else if p == 1603 {
        Some("US")
    } else if p == 1604 {
        Some("CA")
    } else if p == 1605 {
        Some("US")
    } else if p == 1606 {
        Some("US")
    } else if p == 1607 {
        Some("US")
    } else if p == 1608 {
        Some("US")
    } else if p == 1609 {
        Some("US")
    } else if p == 1610 {
        Some("US")
    } else if p == 1612 {
        Some("US")
    } else if p == 1613 {
        Some("CA")
    } else if p == 1614 {
        Some("US")
    } else if p == 1615 {
        Some("US")
    } else if p == 1616 {
        Some("US")
    } else if p == 1617 {
        Some("US")
    } else if p == 1618 {
        Some("US")
    } else if p == 1619 {
        Some("US")
    } else if p == 1620 {
        Some("US")
    } else if p == 1623 {
        Some("US")
    } else if p == 1626 {
        Some("US")
    } else if p == 1630 {
        Some("US")
    } else if p == 1631 {
        Some("US")
    } else if p == 1636 {
        Some("US")
    } else if p == 1641 {
        Some("US")
    } else if p == 1646 {
        Some("US")
    } else if p == 1647 {
        Some("CA")
    } else if p == 1649 {
        Some("TC")
    } else if p == 1650 {
        Some("US")
    } else if p == 1651 {
        Some("US")
    } else if p == 1660 {
        Some("US")
    } else if p == 1661 {
        Some("US")
    } else if p == 1662 {
        Some("US")
    } else if p == 1664 {
        Some("MS")
    } else if p == 1670 {
        Some("MP")
    } else if p == 1671 {
        Some("GU")
    } else if p == 1678 {
        Some("US")
    } else if p == 1682 {
        Some("US")
    } else if p == 1684 {
        Some("AS")
    } else if p == 1701 {
        Some("US")
    } else if p == 1702 {
        Some("US")
    } else if p == 1703 {
        Some("US")
    } else if p == 1704 {
        Some("US")
    } else if p == 1705 {
        Some("CA")
    } else if p == 1706 {
        Some("US")
    } else if p == 1707 {
        Some("US")
    } else if p == 1708 {
        Some("US")
    } else if p == 1709 {
        Some("CA")
    } else if p == 1712 {
        Some("US")
    } else if p == 1713 {
        Some("US")
    } else if p == 1714 {
        Some("US")
    } else if p == 1715 {
        Some("US")
    } else if p == 1716 {
        Some("US")
    } else if p == 1717 {
        Some("US")
    } else if p == 1718 {
        Some("US")
    } else if p == 1719 {
        Some("US")
    } else if p == 1720 {
        Some("US")
    } else if p == 1721 {
        Some("SX")
    } else if p == 1724 {
        Some("US")
    } else if p == 1727 {
        Some("US")
    } else if p == 1731 {
        Some("US")
    } else if p == 1732 {
        Some("US")
    } else if p == 1734 {
        Some("US")
    } else if p == 1740 {
        Some("US")
    } else if p == 1754 {
        Some("US")
    } else if p == 1757 {
        Some("US")
    } else if p == 1758 {
        Some("LC")
    } else if p == 1760 {
        Some("US")
    } else if p == 1763 {
        Some("US")
    } else if p == 1765 {
        Some("US")
    } else if p == 1767 {
        Some("DM")
    } else if p == 1770 {
        Some("US")
    } else if p == 1772 {
        Some("US")
    } else if p == 1773 {
        Some("US")
    } else if p == 1774 {
        Some("US")
    } else if p == 1775 {
        Some("US")
    } else if p == 1778 {
        Some("CA")
    } else if p == 1780 {
        Some("CA")
    } else if p == 1781 {
        Some("US")
    } else if p == 1784 {
        Some("VC")
    } else if p == 1785 {
        Some("US")
    } else if p == 1786 {
        Some("US")
    } else if p == 1787 {
        Some("PR")
    } else if p == 1801 {
        Some("US")
    } else if p == 1802 {
        Some("US")
    } else if p == 1803 {
        Some("US")
    } else if p == 1804 {
        Some("US")
    } else if p == 1805 {
        Some("US")
    } else if p == 1806 {
        Some("US")
    } else if p == 1807 {
        Some("CA")
    } else if p == 1808 {
        Some("US")
    } else if p == 1809 {
        Some("DO")
    } else if p == 1810 {
        Some("US")
    } else if p == 1812 {
        Some("US")
    } else if p == 1813 {
        Some("US")
    } else if p == 1814 {
        Some("US")
    } else if p == 1815 {
        Some("US")
    } else if p == 1816 {
        Some("US")
    } else if p == 1817 {
        Some("US")
    } else if p == 1818 {
        Some("US")
    } else if p == 1819 {
        Some("CA")
    } else if p == 1828 {
        Some("US")
    } else if p == 1829 {
        Some("DO")
    } else if p == 1830 {
        Some("US")
    } else if p == 1831 {
        Some("US")
    } else if p == 1832 {
        Some("US")
    } else if p == 1843 {
        Some("US")
    } else if p == 1845 {
        Some("US")
    } else if p == 1847 {
        Some("US")
    } else if p == 1848 {
        Some("US")
    } else if p == 1849 {
        Some("DO")
    } else if p == 1850 {
        Some("US")
    } else if p == 1856 {
        Some("US")
    } else if p == 1857 {
        Some("US")
    } else if p == 1858 {
        Some("US")
    } else if p == 1859 {
        Some("US")
    } else if p == 1860 {
        Some("US")
    } else if p == 1862 {
        Some("US")
    } else if p == 1863 {
        Some("US")
    } else if p == 1864 {
        Some("US")
    } else if p == 1865 {
        Some("US")
    } else if p == 1867 {
        Some("CA")
    } else if p == 1868 {
        Some("TT")
    } else if p == 1869 {
        Some("KN")
    } else if p == 1870 {
        Some("US")
    } else if p == 1876 {
        Some("JM")
    } else if p == 1878 {
        Some("US")
    } else if p == 1901 {
        Some("US")
    } else if p == 1902 {
        Some("CA")
    } else if p == 1903 {
        Some("US")
    } else if p == 1904 {
        Some("US")
    } else if p == 1905 {
        Some("CA")
    } else if p == 1906 {
        Some("US")
    } else if p == 1907 {
        Some("US")
    } else if p == 1908 {
        Some("US")
    } else if p == 1909 {
        Some("US")
    } else if p == 1910 {
        Some("US")
    } else if p == 1912 {
        Some("US")
    } else if p == 1913 {
        Some("US")
    } else if p == 1914 {
        Some("US")
    } else if p == 1915 {
        Some("US")
    } else if p == 1916 {
        Some("US")
    } else if p == 1917 {
        Some("US")
    } else if p == 1918 {
        Some("US")
    } else if p == 1919 {
        Some("US")
    } else if p == 1920 {
        Some("US")
    } else if p == 1925 {
        Some("US")
    } else if p == 1928 {
        Some("US")
    } else if p == 1931 {
        Some("US")
    } else if p == 1936 {
        Some("US")
    } else if p == 1937 {
        Some("US")
    } else if p == 1939 {
        Some("PR")
    } else if p == 1940 {
        Some("US")
    } else if p == 1941 {
        Some("US")
    } else if p == 1947 {
        Some("US")
    } else if p == 1949 {
        Some("US")
    } else if p == 1951 {
        Some("US")
    } else if p == 1952 {
        Some("US")
    } else if p == 1954 {
        Some("US")
    } else if p == 1956 {
        Some("US")
    } else if p == 1970 {
        Some("US")
    } else if p == 1971 {
        Some("US")
    } else if p == 1972 {
        Some("US")
    } else if p == 1973 {
        Some("US")
    } else if p == 1978 {
        Some("US")
    } else if p == 1979 {
        Some("US")
    } else if p == 1980 {
        Some("US")
    } else if p == 1985 {
        Some("US")
    } else if p == 1989 {
        Some("US")
    } else {
        None
    }
}

/// Looks a prefix key up in the prefix table.
pub(crate) fn prefix_country(p: u32) -> (r: Option<&'static str>)
    ensures
        r == spec_prefix_country(p as int),
{
    if p < 200 {
        prefix_country_low(p)
    } else if p < 600 {
        prefix_country_mid(p)
    } else if p < 1000 {
        prefix_country_high(p)
    } else if p < 1600 {
        prefix_country_nanp_a(p)
    } else if p < 2000 {
        prefix_country_nanp_b(p)
    } else {
        None
    }
}

/// Countries whose identifier starts with A through G.
pub open spec fn spec_country_prefix_ag(a: char, b: char) -> Option<u32> {
    if a == 'A' && b == 'D' {
        Some(376)
    } else if a == 'A' && b == 'E' {
        Some(971)
    } else if a == 'A' && b == 'F' {
        Some(93)
    } else if a == 'A' && b == 'G' {
        Some(1)
    } else if a == 'A' && b == 'I' {
        Some(1)
    } else if a == 'A' && b == 'L' {
        Some(355)
    } else if a == 'A' && b == 'M' {
        Some(374)
    } else if a == 'A' && b == 'O' {
        Some(244)
    } else if a == 'A' && b == 'R' {
        Some(54)
    } else if a == 'A' && b == 'S' {
        Some(1)
    } else if a == 'A' && b == 'T' {
        Some(43)
    } else if a == 'A' && b == 'U' {
        Some(61)
    } else if a == 'A' && b == 'W' {
        Some(297)
    } else if a == 'A' && b == 'X' {
        Some(358)
    } else if a == 'A' && b == 'Z' {
        Some(994)
    } else if a == 'B' && b == 'A' {
        Some(387)
    } else if a == 'B' && b == 'B' {
        Some(1)
    } else if a == 'B' && b == 'D' {
        Some(880)
    } else if a == 'B' && b == 'E' {
        Some(32)
    } else if a == 'B' && b == 'F' {
        Some(226)
    } else if a == 'B' && b == 'G' {
        Some(359)
    } else if a == 'B' && b == 'H' {
        Some(973)
    } else if a == 'B' && b == 'I' {
        Some(257)
    } else if a == 'B' && b == 'J' {
        Some(229)
    } else if a == 'B' && b == 'L' {
        Some(590)
    } else if a == 'B' && b == 'M' {
        Some(1)
    } else if a == 'B' && b == 'N' {
        Some(673)
    } else if a == 'B' && b == 'O' {
        Some(591)
    } else if a == 'B' && b == 'Q' {
        Some(599)
    } else if a == 'B' && b == 'R' {
        Some(55)
    } else if a == 'B' && b == 'S' {
        Some(1)
    } else if a == 'B' && b == 'T' {
        Some(975)
    } else if a == 'B' && b == 'W' {
        Some(267)
    } else if a == 'B' && b == 'Y' {
        Some(375)
    } else if a == 'B' && b == 'Z' {
        Some(501)
    } else if a == 'C' && b == 'A' {
        Some(1)
    } else if a == 'C' && b == 'C' {
        Some(61)
    } else if a == 'C' && b == 'D' {
        Some(243)
    } else if a == 'C' && b == 'F' {
        Some(236)
    } else if a == 'C' && b == 'G' {
        Some(242)
    } else if a == 'C' && b == 'H' {
        Some(41)
    } else if a == 'C' && b == 'I' {
        Some(225)
    } else if a == 'C' && b == 'K' {
        Some(682)
    } else if a == 'C' && b == 'L' {
        Some(56)
    } else if a == 'C' && b == 'M' {
        Some(237)
    } else if a == 'C' && b == 'N' {
        Some(86)
    } else if a == 'C' && b == 'O' {
        Some(57)
    } else if a == 'C' && b == 'R' {
        Some(506)
    } else if a == 'C' && b == 'U' {
        Some(53)
    } else if a == 'C' && b == 'V' {
        Some(238)
    } else if a == 'C' && b == 'W' {
        Some(599)
    } else if a == 'C' && b == 'X' {
        Some(61)
    } else if a == 'C' && b == 'Y' {
        Some(357)
    } else if a == 'C' && b == 'Z' {
        Some(420)
    } else if a == 'D' && b == 'E' {
        Some(49)
    } else if a == 'D' && b == 'J' {
        Some(253)
    } else if a == 'D' && b == 'K' {
        Some(45)
    } else if a == 'D' && b == 'M' {
        Some(1)
    } else if a == 'D' && b == 'O' {
        Some(1)
    } else if a == 'D' && b == 'Z' {
        Some(213)
    } else if a == 'E' && b == 'C' {
        Some(593)
    } else if a == 'E' && b == 'E' {
        Some(372)
    } else if a == 'E' && b == 'G' {
        Some(20)
    } else if a == 'E' && b == 'H' {
        Some(212)
    } else if a == 'E' && b == 'R' {
        Some(291)
    } else if a == 'E' && b == 'S' {
        Some(34)
    } else if a == 'E' && b == 'T' {
        Some(251)
    } else if a == 'F' && b == 'I' {
        Some(358)
    } else if a == 'F' && b == 'J' {
        Some(679)
    } else if a == 'F' && b == 'K' {
        Some(500)
    } else if a == 'F' && b == 'M' {
        Some(691)
    } else if a == 'F' && b == 'O' {
        Some(298)
    } else if a == 'F' && b == 'R' {
        Some(33)
    } else if a == 'G' && b == 'A' {
        Some(241)
    } else if a == 'G' && b == 'B' {
        Some(44)
    } else if a == 'G' && b == 'D' {
        Some(1)
    } else if a == 'G' && b == 'E' {
        Some(995)
    } else if a == 'G' && b == 'F' {
        Some(594)
    } else if a == 'G' && b == 'G' {
        Some(44)
    } else if a == 'G' && b == 'H' {
        Some(233)
    } else if a == 'G' && b == 'I' {
        Some(350)
    } else if a == 'G' && b == 'L' {
        Some(299)
    } else if a == 'G' && b == 'M' {
        Some(220)
    } else if a == 'G' && b == 'N' {
        Some(224)
    } else if a == 'G' && b == 'P' {
        Some(590)
    } else if a == 'G' && b == 'Q' {
        Some(240)
    } else if a == 'G' && b == 'R' {
        Some(30)
    } else if a == 'G' && b == 'T' {
        Some(502)
    } else if a == 'G' && b == 'U' {
        Some(1)
    } else if a == 'G' && b == 'W' {
        Some(245)
    } else if a == 'G' && b == 'Y' {
        Some(592)
    } else {
        None
    }
}

/// Countries whose identifier starts with H through O.
pub open spec fn spec_country_prefix_ho(a: char, b: char) -> Option<u32> {
    if a == 'H' && b == 'K' {
        Some(852)
    } else if a == 'H' && b == 'N' {
        Some(504)
    } else if a == 'H' && b == 'R' {
        Some(385)
    } else if a == 'H' && b == 'T' {
        Some(509)
    } else if a == 'H' && b == 'U' {
        Some(36)
    } else if a == 'I' && b == 'D' {
        Some(62)
    } else if a == 'I' && b == 'E' {
        Some(353)
    } else if a == 'I' && b == 'L' {
        Some(972)
    } else if a == 'I' && b == 'M' {
        Some(44)
    } else if a == 'I' && b == 'N' {
        Some(91)
    } else if a == 'I' && b == 'O' {
        Some(246)
    } else if a == 'I' && b == 'Q' {
        Some(964)
    } else if a == 'I' && b == 'R' {
        Some(98)
    } else if a == 'I' && b == 'S' {
        Some(354)
    } else if a == 'I' && b == 'T' {
        Some(39)
    } else if a == 'J' && b == 'E' {
        Some(44)
    } else if a == 'J' && b == 'M' {
        Some(1)
    } else if a == 'J' && b == 'O' {
        Some(962)
    } else if a == 'J' && b == 'P' {
        Some(81)
    } else if a == 'K' && b == 'E' {
        Some(254)
    } else if a == 'K' && b == 'G' {
        Some(996)
    } else if a == 'K' && b == 'H' {
        Some(855)
    } else if a == 'K' && b == 'I' {
        Some(686)
    } else if a == 'K' && b == 'M' {
        Some(269)
    } else if a == 'K' && b == 'N' {
        Some(1)
    } else if a == 'K' && b == 'P' {
        Some(850)
    } else if a == 'K' && b == 'R' {
        Some(82)
    } else if a == 'K' && b == 'W' {
        Some(965)
    } else if a == 'K' && b == 'Y' {
        Some(1)
    } else if a == 'K' && b == 'Z' {
        Some(7)
    } else if a == 'L' && b == 'A' {
        Some(856)
    } else if a == 'L' && b == 'B' {
        Some(961)
    } else if a == 'L' && b == 'C' {
        Some(1)
    } else if a == 'L' && b == 'I' {
        Some(423)
    } else if a == 'L' && b == 'K' {
        Some(94)
    } else if a == 'L' && b == 'R' {
        Some(231)
    } else if a == 'L' && b == 'S' {
        Some(266)
    } else if a == 'L' && b == 'T' {
        Some(370)
    } else if a == 'L' && b == 'U' {
        Some(352)
    } else if a == 'L' && b == 'V' {
        Some(371)
    } else if a == 'L' && b == 'Y' {
        Some(218)
    } else if a == 'M' && b == 'A' {
        Some(212)
    } else if a == 'M' && b == 'C' {
        Some(377)
    } else if a == 'M' && b == 'D' {
        Some(373)
    } else if a == 'M' && b == 'E' {
        Some(382)
    } else if a == 'M' && b == 'F' {
        Some(590)
    } else if a == 'M' && b == 'G' {
        Some(261)
    } else if a == 'M' && b == 'H' {
        Some(692)
    } else if a == 'M' && b == 'K' {
        Some(389)
    } else if a == 'M' && b == 'L' {
        Some(223)
    } else if a == 'M' && b == 'M' {
        Some(95)
    } else if a == 'M' && b == 'N' {
        Some(976)
    } else if a == 'M' && b == 'O' {
        Some(853)
    } else if a == 'M' && b == 'P' {
        Some(1)
    } else if a == 'M' && b == 'Q' {
        Some(596)
    } else if a == 'M' && b == 'R' {
        Some(222)
    } else if a == 'M' && b == 'S' {
        Some(1)
    } else if a == 'M' && b == 'T' {
        Some(356)
    } else if a == 'M' && b == 'U' {
        Some(230)
    } else if a == 'M' && b == 'V' {
        Some(960)
    } else if a == 'M' && b == 'W' {
        Some(265)
    } else if a == 'M' && b == 'X' {
        Some(52)
    } else if a == 'M' && b == 'Y' {
        Some(60)
    } else if a == 'M' && b == 'Z' {
        Some(258)
    } else if a == 'N' && b == 'A' {
        Some(264)
    } else if a == 'N' && b == 'C' {
        Some(687)
    } else if a == 'N' && b == 'E' {
        Some(227)
    } else if a == 'N' && b == 'F' {
        Some(672)
    } else if a == 'N' && b == 'G' {
        Some(234)
    } else if a == 'N' && b == 'I' {
        Some(505)
    } else if a == 'N' && b == 'L' {
        Some(31)
    } else if a == 'N' && b == 'O' {
        Some(47)
    } else if a == 'N' && b == 'P' {
        Some(977)
    } else if a == 'N' && b == 'R' {
        Some(674)
    } else if a == 'N' && b == 'U' {
        Some(683)
    } else if a == 'N' && b == 'Z' {
        Some(64)
    } else if a == 'O' && b == 'M' {
        Some(968)
    } else {
        None
    }
}

/// Countries whose identifier starts with P through Z.
pub open spec fn spec_country_prefix_pz(a: char, b: char) -> Option<u32> {
    if a == 'P' && b == 'A' {
        Some(507)
    } else if a == 'P' && b == 'E' {
        Some(51)
    } else if a == 'P' && b == 'F' {
        Some(689)
    } else if a == 'P' && b == 'G' {
        Some(675)
    } else if a == 'P' && b == 'H' {
        Some(63)
    } else if a == 'P' && b == 'K' {
        Some(92)
    } else if a == 'P' && b == 'L' {
        Some(48)
    } else if a == 'P' && b == 'M' {
        Some(508)
    } else if a == 'P' && b == 'R' {
        Some(1)
    } else if a == 'P' && b == 'S' {
        Some(970)
    } else if a == 'P' && b == 'T' {
        Some(351)
    } else if a == 'P' && b == 'W' {
        Some(680)
    } else if a == 'P' && b == 'Y' {
        Some(595)
    } else if a == 'Q' && b == 'A' {
        Some(974)
    } else if a == 'R' && b == 'E' {
        Some(262)
    } else if a == 'R' && b == 'O' {
        Some(40)
    } else if a == 'R' && b == 'S' {
        Some(381)
    } else if a == 'R' && b == 'U' {
        Some(7)
    } else if a == 'R' && b == 'W' {
        Some(250)
    } else if a == 'S' && b == 'A' {
        Some(966)
    } else if a == 'S' && b == 'B' {
        Some(677)
    } else if a == 'S' && b == 'C' {
        Some(248)
    } else if a == 'S' && b == 'D' {
        Some(249)
    } else if a == 'S' && b == 'E' {
        Some(46)
    } else if a == 'S' && b == 'G' {
        Some(65)
    } else if a == 'S' && b == 'H' {
        Some(290)
    } else if a == 'S' && b == 'I' {
        Some(386)
    } else if a == 'S' && b == 'J' {
        Some(47)
    } else if a == 'S' && b == 'K' {
        Some(421)
    } else if a == 'S' && b == 'L' {
        Some(232)
    } else if a == 'S' && b == 'M' {
        Some(378)
    } else if a == 'S' && b == 'N' {
        Some(221)
    } else if a == 'S' && b == 'O' {
        Some(252)
    } else if a == 'S' && b == 'R' {
        Some(597)
    } else if a == 'S' && b == 'S' {
        Some(211)
    } else if a == 'S' && b == 'T' {
        Some(239)
    } else if a == 'S' && b == 'V' {
        Some(503)
    } else if a == 'S' && b == 'X' {
        Some(1)
    } else if a == 'S' && b == 'Y' {
        Some(963)
    } else if a == 'S' && b == 'Z' {
        Some(268)
    } else if a == 'T' && b == 'C' {
        Some(1)
    } else if a == 'T' && b == 'D' {
        Some(235)
    } else if a == 'T' && b == 'G' {
        Some(228)
    } else if a == 'T' && b == 'H' {
        Some(66)
    } else if a == 'T' && b == 'J' {
        Some(992)
    } else if a == 'T' && b == 'K' {
        Some(690)
    } else if a == 'T' && b == 'L' {
        Some(670)
    } else if a == 'T' && b == 'M' {
        Some(993)
    } else if a == 'T' && b == 'N' {
        Some(216)
    } else if a == 'T' && b == 'O' {
        Some(676)
    } else if a == 'T' && b == 'R' {
        Some(90)
    } else if a == 'T' && b == 'T' {
        Some(1)
    } else if a == 'T' && b == 'V' {
        Some(688)
    } else if a == 'T' && b == 'W' {
        Some(886)
    } else if a == 'T' && b == 'Z' {
        Some(255)
    } else if a == 'U' && b == 'A' {
        Some(380)
    } else if a == 'U' && b == 'G' {
        Some(256)
    } else if a == 'U' && b == 'S' {
        Some(1)
    } else if a == 'U' && b == 'Y' {
        Some(598)
    } else if a == 'U' && b == 'Z' {
        Some(998)
    } else if a == 'V' && b == 'A' {
        Some(379)
    } else if a == 'V' && b == 'C' {
        Some(1)
    } else if a == 'V' && b == 'E' {
        Some(58)
    } else if a == 'V' && b == 'G' {
        Some(1)
    } else if a == 'V' && b == 'I' {
        Some(1)
    } else if a == 'V' && b == 'N' {
        Some(84)
    } else if a == 'V' && b == 'U' {
        Some(678)
    } else if a == 'W' && b == 'F' {
        Some(681)
    } else if a == 'W' && b == 'S' {
        Some(685)
    } else if a == 'Y' && b == 'E' {
        Some(967)
    } else if a == 'Y' && b == 'T' {
        Some(262)
    } else if a == 'Z' && b == 'A' {
        Some(27)
    } else if a == 'Z' && b == 'M' {
        Some(260)
    } else if a == 'Z' && b == 'W' {
        Some(263)
    } else {
        None
    }
}

/// The full country table: the calling-code prefix filed under a two-letter
/// country identifier, or `None` where the identifier is absent. Countries of
/// numbering zone 1 are all filed under prefix 1.
pub open spec fn spec_country_prefix_pair(a: char, b: char) -> Option<u32> {
    if (a as int) < 72 {
        spec_country_prefix_ag(a, b)
    } else if (a as int) < 80 {
        spec_country_prefix_ho(a, b)
    } else {
        spec_country_prefix_pz(a, b)
    }
}

pub(crate) fn country_prefix_ag(a: char, b: char) -> (r: Option<u32>)
    ensures
        r == spec_country_prefix_ag(a, b),
{
    if a == 'A' && b == 'D' {
        Some(376)
    } else if a == 'A' && b == 'E' {
        Some(971)
    } else if a == 'A' && b == 'F' {
        Some(93)
    } else if a == 'A' && b == 'G' {
        Some(1)
    } else if a == 'A' && b == 'I' {
        Some(1)
    } else if a == 'A' && b == 'L' {
        Some(355)
    } else if a == 'A' && b == 'M' {
        Some(374)
    } else if a == 'A' && b == 'O' {
        Some(244)
    } else if a == 'A' && b == 'R' {
        Some(54)
    } else if a == 'A' && b == 'S' {
        Some(1)
    } else if a == 'A' && b == 'T' {
        Some(43)
    } else if a == 'A' && b == 'U' {
        Some(61)
    } else if a == 'A' && b == 'W' {
        Some(297)
    } else if a == 'A' && b == 'X' {
        Some(358)
    } else if a == 'A' && b == 'Z' {
        Some(994)
    } else if a == 'B' && b == 'A' {
        Some(387)
    } else if a == 'B' && b == 'B' {
        Some(1)
    } else if a == 'B' && b == 'D' {
        Some(880)
    } else if a == 'B' && b == 'E' {
        Some(32)
    } else if a == 'B' && b == 'F' {
        Some(226)
    } else if a == 'B' && b == 'G' {
        Some(359)
    } else if a == 'B' && b == 'H' {
        Some(973)
    } else if a == 'B' && b == 'I' {
        Some(257)
    } else if a == 'B' && b == 'J' {
        Some(229)
    } else if a == 'B' && b == 'L' {
        Some(590)
    } else if a == 'B' && b == 'M' {
        Some(1)
    } else if a == 'B' && b == 'N' {
        Some(673)
    } else if a == 'B' && b == 'O' {
        Some(591)
    } else if a == 'B' && b == 'Q' {
        Some(599)
    } else if a == 'B' && b == 'R' {
        Some(55)
    } else if a == 'B' && b == 'S' {
        Some(1)
    } else if a == 'B' && b == 'T' {
        Some(975)
    } else if a == 'B' && b == 'W' {
        Some(267)
    } else if a == 'B' && b == 'Y' {
        Some(375)
    } else if a == 'B' && b == 'Z' {
        Some(501)
    } else if a == 'C' && b == 'A' {
        Some(1)
    } else if a == 'C' && b == 'C' {
        Some(61)
    } else if a == 'C' && b == 'D' {
        Some(243)
    } else if a == 'C' && b == 'F' {
        Some(236)
    } else if a == 'C' && b == 'G' {
        Some(242)
    } else if a == 'C' && b == 'H' {
        Some(41)
    } else if a == 'C' && b == 'I' {
        Some(225)
    } else if a == 'C' && b == 'K' {
        Some(682)
    } else if a == 'C' && b == 'L' {
        Some(56)
    } else if a == 'C' && b == 'M' {
        Some(237)
    } else if a == 'C' && b == 'N' {
        Some(86)
    } else if a == 'C' && b == 'O' {
        Some(57)
    } else if a == 'C' && b == 'R' {
        Some(506)
    } else if a == 'C' && b == 'U' {
        Some(53)
    } else if a == 'C' && b == 'V' {
        Some(238)
    } else if a == 'C' && b == 'W' {
        Some(599)
    } else if a == 'C' && b == 'X' {
        Some(61)
    } else if a == 'C' && b == 'Y' {
        Some(357)
    } else if a == 'C' && b == 'Z' {
        Some(420)
    } else if a == 'D' && b == 'E' {
        Some(49)
    } else if a == 'D' && b == 'J' {
        Some(253)
    } else if a == 'D' && b == 'K' {
        Some(45)
    } else if a == 'D' && b == 'M' {
        Some(1)
    } else if a == 'D' && b == 'O' {
        Some(1)
    } else if a == 'D' && b == 'Z' {
        Some(213)
    } else if a == 'E' && b == 'C' {
        Some(593)
    } else if a == 'E' && b == 'E' {
        Some(372)
    } else if a == 'E' && b == 'G' {
        Some(20)
    } else if a == 'E' && b == 'H' {
        Some(212)
    } else if a == 'E' && b == 'R' {
        Some(291)
    } else if a == 'E' && b == 'S' {
        Some(34)
    } else if a == 'E' && b == 'T' {
        Some(251)
    } else if a == 'F' && b == 'I' {
        Some(358)
    } else if a == 'F' && b == 'J' {
        Some(679)
    } else if a == 'F' && b == 'K' {
        Some(500)
    } else if a == 'F' && b == 'M' {
        Some(691)
    } else if a == 'F' && b == 'O' {
        Some(298)
    } else if a == 'F' && b == 'R' {
        Some(33)
    } else if a == 'G' && b == 'A' {
        Some(241)
    } else if a == 'G' && b == 'B' {
        Some(44)
    } else if a == 'G' && b == 'D' {
        Some(1)
    } else if a == 'G' && b == 'E' {
        Some(995)
    } else if a == 'G' && b == 'F' {
        Some(594)
    } else if a == 'G' && b == 'G' {
        Some(44)
    } else if a == 'G' && b == 'H' {
        Some(233)
    } else if a == 'G' && b == 'I' {
        Some(350)
    } else if a == 'G' && b == 'L' {
        Some(299)
    } else if a == 'G' && b == 'M' {
        Some(220)
    } else if a == 'G' && b == 'N' {
        Some(224)
    } else if a == 'G' && b == 'P' {
        Some(590)
    } else if a == 'G' && b == 'Q' {
        Some(240)
    } else if a == 'G' && b == 'R' {
        Some(30)
    } else if a == 'G' && b == 'T' {
        Some(502)
    } else if a == 'G' && b == 'U' {
        Some(1)
    } else if a == 'G' && b == 'W' {
        Some(245)
    } else if a == 'G' && b == 'Y' {
        Some(592)
    } else {
        None
    }
}

pub(crate) fn country_prefix_ho(a: char, b: char) -> (r: Option<u32>)
    ensures
        r == spec_country_prefix_ho(a, b),
{
    if a == 'H' && b == 'K' {
        Some(852)
    } else if a == 'H' && b == 'N' {
        Some(504)
    } else if a == 'H' && b == 'R' {
        Some(385)
    } else if a == 'H' && b == 'T' {
        Some(509)
    } else if a == 'H' && b == 'U' {
        Some(36)
    } else if a == 'I' && b == 'D' {
        Some(62)
    } else if a == 'I' && b == 'E' {
        Some(353)
    } else if a == 'I' && b == 'L' {
        Some(972)
    } else if a == 'I' && b == 'M' {
        Some(44)
    } else if a == 'I' && b == 'N' {
        Some(91)
    } else if a == 'I' && b == 'O' {
        Some(246)
    } else if a == 'I' && b == 'Q' {
        Some(964)
    } else if a == 'I' && b == 'R' {
        Some(98)
    } else if a == 'I' && b == 'S' {
        Some(354)
    } else if a == 'I' && b == 'T' {
        Some(39)
    } else if a == 'J' && b == 'E' {
        Some(44)
    } else if a == 'J' && b == 'M' {
        Some(1)
    } else if a == 'J' && b == 'O' {
        Some(962)
    } else if a == 'J' && b == 'P' {
        Some(81)
    } else if a == 'K' && b == 'E' {
        Some(254)
    } else if a == 'K' && b == 'G' {
        Some(996)
    } else if a == 'K' && b == 'H' {
        Some(855)
    } else if a == 'K' && b == 'I' {
        Some(686)
    } else if a == 'K' && b == 'M' {
        Some(269)
    } else if a == 'K' && b == 'N' {
        Some(1)
    } else if a == 'K' && b == 'P' {
        Some(850)
    } else if a == 'K' && b == 'R' {
        Some(82)
    } else if a == 'K' && b == 'W' {
        Some(965)
    } else if a == 'K' && b == 'Y' {
        Some(1)
    } else if a == 'K' && b == 'Z' {
        Some(7)
    } else if a == 'L' && b == 'A' {
        Some(856)
    } else if a == 'L' && b == 'B' {
        Some(961)
    } else if a == 'L' && b == 'C' {
        Some(1)
    } else if a == 'L' && b == 'I' {
        Some(423)
    } else if a == 'L' && b == 'K' {
        Some(94)
    } else if a == 'L' && b == 'R' {
        Some(231)
    } else if a == 'L' && b == 'S' {
        Some(266)
    } else if a == 'L' && b == 'T' {
        Some(370)
    } else if a == 'L' && b == 'U' {
        Some(352)
    } else if a == 'L' && b == 'V' {
        Some(371)
    } else if a == 'L' && b == 'Y' {
        Some(218)
    } else if a == 'M' && b == 'A' {
        Some(212)
    } else if a == 'M' && b == 'C' {
        Some(377)
    } else if a == 'M' && b == 'D' {
        Some(373)
    } else if a == 'M' && b == 'E' {
        Some(382)
    } else if a == 'M' && b == 'F' {
        Some(590)
    } else if a == 'M' && b == 'G' {
        Some(261)
    } else if a == 'M' && b == 'H' {
        Some(692)
    } else if a == 'M' && b == 'K' {
        Some(389)
    } else if a == 'M' && b == 'L' {
        Some(223)
    } else if a == 'M' && b == 'M' {
        Some(95)
    } else if a == 'M' && b == 'N' {
        Some(976)
    } else if a == 'M' && b == 'O' {
        Some(853)
    } else if a == 'M' && b == 'P' {
        Some(1)
    } else if a == 'M' && b == 'Q' {
        Some(596)
    } else if a == 'M' && b == 'R' {
        Some(222)
    } else if a == 'M' && b == 'S' {
        Some(1)
    } else if a == 'M' && b == 'T' {
        Some(356)
    } else if a == 'M' && b == 'U' {
        Some(230)
    } else if a == 'M' && b == 'V' {
        Some(960)
    } else if a == 'M' && b == 'W' {
        Some(265)
    } else if a == 'M' && b == 'X' {
        Some(52)
    } else if a == 'M' && b == 'Y' {
        Some(60)
    } else if a == 'M' && b == 'Z' {
        Some(258)
    } else if a == 'N' && b == 'A' {
        Some(264)
    } else if a == 'N' && b == 'C' {
        Some(687)
    } else if a == 'N' && b == 'E' {
        Some(227)
    } else if a == 'N' && b == 'F' {
        Some(672)
    } else if a == 'N' && b == 'G' {
        Some(234)
    } else if a == 'N' && b == 'I' {
        Some(505)
    } else if a == 'N' && b == 'L' {
        Some(31)
    } else if a == 'N' && b == 'O' {
        Some(47)
    } else if a == 'N' && b == 'P' {
        Some(977)
    } else if a == 'N' && b == 'R' {
        Some(674)
    } else if a == 'N' && b == 'U' {
        Some(683)
    } else if a == 'N' && b == 'Z' {
        Some(64)
    } else if a == 'O' && b == 'M' {
        Some(968)
    } else {
        None
    }
}

pub(crate) fn country_prefix_pz(a: char, b: char) -> (r: Option<u32>)
    ensures
        r == spec_country_prefix_pz(a, b),
{
    if a == 'P' && b == 'A' {
        Some(507)
    } else if a == 'P' && b == 'E' {
        Some(51)
    } else if a == 'P' && b == 'F' {
        Some(689)
    } else if a == 'P' && b == 'G' {
        Some(675)
    } else if a == 'P' && b == 'H' {
        Some(63)
    } else if a == 'P' && b == 'K' {
        Some(92)
    } else if a == 'P' && b == 'L' {
        Some(48)
    } else if a == 'P' && b == 'M' {
        Some(508)
    } else if a == 'P' && b == 'R' {
        Some(1)
    } else if a == 'P' && b == 'S' {
        Some(970)
    } else if a == 'P' && b == 'T' {
        Some(351)
    } else if a == 'P' && b == 'W' {
        Some(680)
    } else if a == 'P' && b == 'Y' {
        Some(595)
    } else if a == 'Q' && b == 'A' {
        Some(974)
    } else if a == 'R' && b == 'E' {
        Some(262)
    } else if a == 'R' && b == 'O' {
        Some(40)
    } else if a == 'R' && b == 'S' {
        Some(381)
    } else if a == 'R' && b == 'U' {
        Some(7)
    } else if a == 'R' && b == 'W' {
        Some(250)
    } else if a == 'S' && b == 'A' {
        Some(966)
    } else if a == 'S' && b == 'B' {
        Some(677)
    } else if a == 'S' && b == 'C' {
        Some(248)
    } else if a == 'S' && b == 'D' {
        Some(249)
    } else if a == 'S' && b == 'E' {
        Some(46)
    } else if a == 'S' && b == 'G' {
        Some(65)
    } else if a == 'S' && b == 'H' {
        Some(290)
    } else if a == 'S' && b == 'I' {
        Some(386)
    } else if a == 'S' && b == 'J' {
        Some(47)
    } else if a == 'S' && b == 'K' {
        Some(421)
    } else if a == 'S' && b == 'L' {
        Some(232)
    } else if a == 'S' && b == 'M' {
        Some(378)
    } else if a == 'S' && b == 'N' {
        Some(221)
    } else if a == 'S' && b == 'O' {
        Some(252)
    } else if a == 'S' && b == 'R' {
        Some(597)
    } else if a == 'S' && b == 'S' {
        Some(211)
    } else if a == 'S' && b == 'T' {
        Some(239)
    } else if a == 'S' && b == 'V' {
        Some(503)
    } else if a == 'S' && b == 'X' {
        Some(1)
    } else if a == 'S' && b == 'Y' {
        Some(963)
    } else if a == 'S' && b == 'Z' {
        Some(268)
    } else if a == 'T' && b == 'C' {
        Some(1)
    } else if a == 'T' && b == 'D' {
        Some(235)
    } else if a == 'T' && b == 'G' {
        Some(228)
    } else if a == 'T' && b == 'H' {
        Some(66)
    } else if a == 'T' && b == 'J' {
        Some(992)
    } else if a == 'T' && b == 'K' {
        Some(690)
    } else if a == 'T' && b == 'L' {
        Some(670)
    } else if a == 'T' && b == 'M' {
        Some(993)
    } else if a == 'T' && b == 'N' {
        Some(216)
    } else if a == 'T' && b == 'O' {
        Some(676)
    } else if a == 'T' && b == 'R' {
        Some(90)
    } else if a == 'T' && b == 'T' {
        Some(1)
    } else if a == 'T' && b == 'V' {
        Some(688)
    } else if a == 'T' && b == 'W' {
        Some(886)
    } else if a == 'T' && b == 'Z' {
        Some(255)
    } else if a == 'U' && b == 'A' {
        Some(380)
    } else if a == 'U' && b == 'G' {
        Some(256)
    } else if a == 'U' && b == 'S' {
        Some(1)
    } else if a == 'U' && b == 'Y' {
        Some(598)
    } else if a == 'U' && b == 'Z' {
        Some(998)
    } else if a == 'V' && b == 'A' {
        Some(379)
    } else if a == 'V' && b == 'C' {
        Some(1)
    } else if a == 'V' && b == 'E' {
        Some(58)
    } else if a == 'V' && b == 'G' {
        Some(1)
    } else if a == 'V' && b == 'I' {
        Some(1)
    } else if a == 'V' && b == 'N' {
        Some(84)
    } else if a == 'V' && b == 'U' {
        Some(678)
    } else if a == 'W' && b == 'F' {
        Some(681)
    } else if a == 'W' && b == 'S' {
        Some(685)
    } else if a == 'Y' && b == 'E' {
        Some(967)
    } else if a == 'Y' && b == 'T' {
        Some(262)
    } else if a == 'Z' && b == 'A' {
        Some(27)
    } else if a == 'Z' && b == 'M' {
        Some(260)
    } else if a == 'Z' && b == 'W' {
        Some(263)
    } else {
        None
    }
}

/// Looks a two-letter country identifier up in the country table.
pub(crate) fn country_prefix_pair(a: char, b: char) -> (r: Option<u32>)
    ensures
        r == spec_country_prefix_pair(a, b),
{
    if (a as u32) < 72 {
        country_prefix_ag(a, b)
    } else if (a as u32) < 80 {
        country_prefix_ho(a, b)
    } else {
        country_prefix_pz(a, b)
    }
}

} // verus!
