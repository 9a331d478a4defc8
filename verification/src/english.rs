//! The English word dictionary: 2048 words, one per 11-bit code.

use vstd::prelude::*;

verus! {

fn words_part_0() -> (b: Vec<String>)
    ensures
        b@.len() == 32,
        b@[0]@ == "abandon"@,
        b@[1]@ == "ability"@,
        b@[4]@ == "above"@,
{
    let mut b: Vec<String> = Vec::new();
    b.push("abandon".to_owned());
    b.push("ability".to_owned());
    b.push("able".to_owned());
    b.push("about".to_owned());
    b.push("above".to_owned());
    b.push("absent".to_owned());
    b.push("absorb".to_owned());
    b.push("abstract".to_owned());
    b.push("absurd".to_owned());
    b.push("abuse".to_owned());
    b.push("access".to_owned());
    b.push("accident".to_owned());
    b.push("account".to_owned());
    b.push("accuse".to_owned());
    b.push("achieve".to_owned());
    b.push("acid".to_owned());
    b.push("acoustic".to_owned());
    b.push("acquire".to_owned());
    b.push("across".to_owned());
    b.push("act".to_owned());
    b.push("action".to_owned());
    b.push("actor".to_owned());
    b.push("actress".to_owned());
    b.push("actual".to_owned());
    b.push("adapt".to_owned());
    b.push("add".to_owned());
    b.push("addict".to_owned());
    b.push("address".to_owned());
    b.push("adjust".to_owned());
    b.push("admit".to_owned());
    b.push("adult".to_owned());
    b.push("advance".to_owned());
    b
}

fn words_part_1() -> (b: Vec<String>)
    ensures
        b@.len() == 32,
        b@[0]@ == "advice"@,
{
    let mut b: Vec<String> = Vec::new();
    b.push("advice".to_owned());
    b.push("aerobic".to_owned());
    b.push("affair".to_owned());
    b.push("afford".to_owned());
    b.push("afraid".to_owned());
    b.push("again".to_owned());
    b.push("age".to_owned());
    b.push("agent".to_owned());
    b.push("agree".to_owned());
    b.push("ahead".to_owned());
    b.push("aim".to_owned());
    b.push("air".to_owned());
    b.push("airport".to_owned());
    b.push("aisle".to_owned());
    b.push("alarm".to_owned());
    b.push("album".to_owned());
    b.push("alcohol".to_owned());
    b.push("alert".to_owned());
    b.push("alien".to_owned());
    b.push("all".to_owned());
    b.push("alley".to_owned());
    b.push("allow".to_owned());
    b.push("almost".to_owned());
    b.push("alone".to_owned());
    b.push("alpha".to_owned());
    b.push("already".to_owned());
    b.push("also".to_owned());
    b.push("alter".to_owned());
    b.push("always".to_owned());
    b.push("amateur".to_owned());
    b.push("amazing".to_owned());
    b.push("among".to_owned());
    b
}

fn words_part_2() -> (b: Vec<String>)
    ensures
        b@.len() == 32,
{
    let mut b: Vec<String> = Vec::new();
    b.push("amount".to_owned());
    b.push("amused".to_owned());
    b.push("analyst".to_owned());
    b.push("anchor".to_owned());
    b.push("ancient".to_owned());
    b.push("anger".to_owned());
    b.push("angle".to_owned());
    b.push("angry".to_owned());
    b.push("animal".to_owned());
    b.push("ankle".to_owned());
    b.push("announce".to_owned());
    b.push("annual".to_owned());
    b.push("another".to_owned());
    b.push("answer".to_owned());
    b.push("antenna".to_owned());
    b.push("antique".to_owned());
    b.push("anxiety".to_owned());
    b.push("any".to_owned());
    b.push("apart".to_owned());
    b.push("apology".to_owned());
    b.push("appear".to_owned());
    b.push("apple".to_owned());
    b.push("approve".to_owned());
    b.push("april".to_owned());
    b.push("arch".to_owned());
    b.push("arctic".to_owned());
    b.push("area".to_owned());
    b.push("arena".to_owned());
    b.push("argue".to_owned());
    b.push("arm".to_owned());
    b.push("armed".to_owned());
    b.push("armor".to_owned());
    b
}

fn words_part_3() -> (b: Vec<String>)
    ensures
        b@.len() == 32,
{
    let mut b: Vec<String> = Vec::new();
    b.push("army".to_owned());
    b.push("around".to_owned());
    b.push("arrange".to_owned());
    b.push("arrest".to_owned());
    b.push("arrive".to_owned());
    b.push("arrow".to_owned());
    b.push("art".to_owned());
    b.push("artefact".to_owned());
    b.push("artist".to_owned());
    b.push("artwork".to_owned());
    b.push("ask".to_owned());
    b.push("aspect".to_owned());
    b.push("assault".to_owned());
    b.push("asset".to_owned());
    b.push("assist".to_owned());
    b.push("assume".to_owned());
    b.push("asthma".to_owned());
    b.push("athlete".to_owned());
    b.push("atom".to_owned());
    b.push("attack".to_owned());
    b.push("attend".to_owned());
    b.push("attitude".to_owned());
    b.push("attract".to_owned());
    b.push("auction".to_owned());
    b.push("audit".to_owned());
    b.push("august".to_owned());
    b.push("aunt".to_owned());
    b.push("author".to_owned());
    b.push("auto".to_owned());
    b.push("autumn".to_owned());
    b.push("average".to_owned());
    b.push("avocado".to_owned());
    b
}

fn words_part_4() -> (b: Vec<String>)
    ensures
        b@.len() == 32,
{
    let mut b: Vec<String> = Vec::new();
    b.push("avoid".to_owned());
    b.push("awake".to_owned());
    b.push("aware".to_owned());
    b.push("away".to_owned());
    b.push("awesome".to_owned());
    b.push("awful".to_owned());
    b.push("awkward".to_owned());
    b.push("axis".to_owned());
    b.push("baby".to_owned());
    b.push("bachelor".to_owned());
    b.push("bacon".to_owned());
    b.push("badge".to_owned());
    b.push("bag".to_owned());
    b.push("balance".to_owned());
    b.push("balcony".to_owned());
    b.push("ball".to_owned());
    b.push("bamboo".to_owned());
    b.push("banana".to_owned());
    b.push("banner".to_owned());
    b.push("bar".to_owned());
    b.push("barely".to_owned());
    b.push("bargain".to_owned());
    b.push("barrel".to_owned());
    b.push("base".to_owned());
    b.push("basic".to_owned());
    b.push("basket".to_owned());
    b.push("battle".to_owned());
    b.push("beach".to_owned());
    b.push("bean".to_owned());
    b.push("beauty".to_owned());
    b.push("because".to_owned());
    b.push("become".to_owned());
    b
}

fn words_part_5() -> (b: Vec<String>)
    ensures
        b@.len() == 32,
{
    let mut b: Vec<String> = Vec::new();
    b.push("beef".to_owned());
    b.push("before".to_owned());
    b.push("begin".to_owned());
    b.push("behave".to_owned());
    b.push("behind".to_owned());
    b.push("believe".to_owned());
    b.push("below".to_owned());
    b.push("belt".to_owned());
    b.push("bench".to_owned());
    b.push("benefit".to_owned());
    b.push("best".to_owned());
    b.push("betray".to_owned());
    b.push("better".to_owned());
    b.push("between".to_owned());
    b.push("beyond".to_owned());
    b.push("bicycle".to_owned());
    b.push("bid".to_owned());
    b.push("bike".to_owned());
    b.push("bind".to_owned());
    b.push("biology".to_owned());
    b.push("bird".to_owned());
    b.push("birth".to_owned());
    b.push("bitter".to_owned());
    b.push("black".to_owned());
    b.push("blade".to_owned());
    b.push("blame".to_owned());
    b.push("blanket".to_owned());
    b.push("blast".to_owned());
    b.push("bleak".to_owned());
    b.push("bless".to_owned());
    b.push("blind".to_owned());
    b.push("blood".to_owned());
    b
}

fn words_part_6() -> (b: Vec<String>)
    ensures
        b@.len() == 32,
{
    let mut b: Vec<String> = Vec::new();
    b.push("blossom".to_owned());
    b.push("blouse".to_owned());
    b.push("blue".to_owned());
    b.push("blur".to_owned());
    b.push("blush".to_owned());
    b.push("board".to_owned());
    b.push("boat".to_owned());
    b.push("body".to_owned());
    b.push("boil".to_owned());
    b.push("bomb".to_owned());
    b.push("bone".to_owned());
    b.push("bonus".to_owned());
    b.push("book".to_owned());
    b.push("boost".to_owned());
    b.push("border".to_owned());
    b.push("boring".to_owned());
    b.push("borrow".to_owned());
    b.push("boss".to_owned());
    b.push("bottom".to_owned());
    b.push("bounce".to_owned());
    b.push("box".to_owned());
    b.push("boy".to_owned());
    b.push("bracket".to_owned());
    b.push("brain".to_owned());
    b.push("brand".to_owned());
    b.push("brass".to_owned());
    b.push("brave".to_owned());
    b.push("bread".to_owned());
    b.push("breeze".to_owned());
    b.push("brick".to_owned());
    b.push("bridge".to_owned());
    b.push("brief".to_owned());
    b
}

fn words_part_7() -> (b: Vec<String>)
    ensures
        b@.len() == 32,
{
    let mut b: Vec<String> = Vec::new();
    b.push("bright".to_owned());
    b.push("bring".to_owned());
    b.push("brisk".to_owned());
    b.push("broccoli".to_owned());
    b.push("broken".to_owned());
    b.push("bronze".to_owned());
    b.push("broom".to_owned());
    b.push("brother".to_owned());
    b.push("brown".to_owned());
    b.push("brush".to_owned());
    b.push("bubble".to_owned());
    b.push("buddy".to_owned());
    b.push("budget".to_owned());
    b.push("buffalo".to_owned());
    b.push("build".to_owned());
    b.push("bulb".to_owned());
    b.push("bulk".to_owned());
    b.push("bullet".to_owned());
    b.push("bundle".to_owned());
    b.push("bunker".to_owned());
    b.push("burden".to_owned());
    b.push("burger".to_owned());
    b.push("burst".to_owned());
    b.push("bus".to_owned());
    b.push("business".to_owned());
    b.push("busy".to_owned());
    b.push("butter".to_owned());
    b.push("buyer".to_owned());
    b.push("buzz".to_owned());
    b.push("cabbage".to_owned());
    b.push("cabin".to_owned());
    b.push("cable".to_owned());
    b
}

fn words_part_8() -> (b: Vec<String>)
    ensures
        b@.len() == 32,
        b@[1]@ == "cage"@,
{
    let mut b: Vec<String> = Vec::new();
    b.push("cactus".to_owned());
    b.push("cage".to_owned());
    b.push("cake".to_owned());
    b.push("call".to_owned());
    b.push("calm".to_owned());
    b.push("camera".to_owned());
    b.push("camp".to_owned());
    b.push("can".to_owned());
    b.push("canal".to_owned());
    b.push("cancel".to_owned());
    b.push("candy".to_owned());
    b.push("cannon".to_owned());
    b.push("canoe".to_owned());
    b.push("canvas".to_owned());
    b.push("canyon".to_owned());
    b.push("capable".to_owned());
    b.push("capital".to_owned());
    b.push("captain".to_owned());
    b.push("car".to_owned());
    b.push("carbon".to_owned());
    b.push("card".to_owned());
    b.push("cargo".to_owned());
    b.push("carpet".to_owned());
    b.push("carry".to_owned());
    b.push("cart".to_owned());
    b.push("case".to_owned());
    b.push("cash".to_owned());
    b.push("casino".to_owned());
    b.push("castle".to_owned());
    b.push("casual".to_owned());
    b.push("cat".to_owned());
    b.push("catalog".to_owned());
    b
}

fn words_part_9() -> (b: Vec<String>)
    ensures
        b@.len() == 32,
{
    let mut b: Vec<String> = Vec::new();
    b.push("catch".to_owned());
    b.push("category".to_owned());
    b.push("cattle".to_owned());
    b.push("caught".to_owned());
    b.push("cause".to_owned());
    b.push("caution".to_owned());
    b.push("cave".to_owned());
    b.push("ceiling".to_owned());
    b.push("celery".to_owned());
    b.push("cement".to_owned());
    b.push("census".to_owned());
    b.push("century".to_owned());
    b.push("cereal".to_owned());
    b.push("certain".to_owned());
    b.push("chair".to_owned());
    b.push("chalk".to_owned());
    b.push("champion".to_owned());
    b.push("change".to_owned());
    b.push("chaos".to_owned());
    b.push("chapter".to_owned());
    b.push("charge".to_owned());
    b.push("chase".to_owned());
    b.push("chat".to_owned());
    b.push("cheap".to_owned());
    b.push("check".to_owned());
    b.push("cheese".to_owned());
    b.push("chef".to_owned());
    b.push("cherry".to_owned());
    b.push("chest".to_owned());
    b.push("chicken".to_owned());
    b.push("chief".to_owned());
    b.push("child".to_owned());
    b
}

fn words_part_10() -> (b: Vec<String>)
    ensures
        b@.len() == 32,
{
    let mut b: Vec<String> = Vec::new();
    b.push("chimney".to_owned());
    b.push("choice".to_owned());
    b.push("choose".to_owned());
    b.push("chronic".to_owned());
    b.push("chuckle".to_owned());
    b.push("chunk".to_owned());
    b.push("churn".to_owned());
    b.push("cigar".to_owned());
    b.push("cinnamon".to_owned());
    b.push("circle".to_owned());
    b.push("citizen".to_owned());
    b.push("city".to_owned());
    b.push("civil".to_owned());
    b.push("claim".to_owned());
    b.push("clap".to_owned());
    b.push("clarify".to_owned());
    b.push("claw".to_owned());
    b.push("clay".to_owned());
    b.push("clean".to_owned());
    b.push("clerk".to_owned());
    b.push("clever".to_owned());
    b.push("click".to_owned());
    b.push("client".to_owned());
    b.push("cliff".to_owned());
    b.push("climb".to_owned());
    b.push("clinic".to_owned());
    b.push("clip".to_owned());
    b.push("clock".to_owned());
    b.push("clog".to_owned());
    b.push("close".to_owned());
    b.push("cloth".to_owned());
    b.push("cloud".to_owned());
    b
}

fn words_part_11() -> (b: Vec<String>)
    ensures
        b@.len() == 32,
{
    let mut b: Vec<String> = Vec::new();
    b.push("clown".to_owned());
    b.push("club".to_owned());
    b.push("clump".to_owned());
    b.push("cluster".to_owned());
    b.push("clutch".to_owned());
    b.push("coach".to_owned());
    b.push("coast".to_owned());
    b.push("coconut".to_owned());
    b.push("code".to_owned());
    b.push("coffee".to_owned());
    b.push("coil".to_owned());
    b.push("coin".to_owned());
    b.push("collect".to_owned());
    b.push("color".to_owned());
    b.push("column".to_owned());
    b.push("combine".to_owned());
    b.push("come".to_owned());
    b.push("comfort".to_owned());
    b.push("comic".to_owned());
    b.push("common".to_owned());
    b.push("company".to_owned());
    b.push("concert".to_owned());
    b.push("conduct".to_owned());
    b.push("confirm".to_owned());
    b.push("congress".to_owned());
    b.push("connect".to_owned());
    b.push("consider".to_owned());
    b.push("control".to_owned());
    b.push("convince".to_owned());
    b.push("cook".to_owned());
    b.push("cool".to_owned());
    b.push("copper".to_owned());
    b
}

fn words_part_12() -> (b: Vec<String>)
    ensures
        b@.len() == 32,
{
    let mut b: Vec<String> = Vec::new();
    b.push("copy".to_owned());
    b.push("coral".to_owned());
    b.push("core".to_owned());
    b.push("corn".to_owned());
    b.push("correct".to_owned());
    b.push("cost".to_owned());
    b.push("cotton".to_owned());
    b.push("couch".to_owned());
    b.push("country".to_owned());
    b.push("couple".to_owned());
    b.push("course".to_owned());
    b.push("cousin".to_owned());
    b.push("cover".to_owned());
    b.push("coyote".to_owned());
    b.push("crack".to_owned());
    b.push("cradle".to_owned());
    b.push("craft".to_owned());
    b.push("cram".to_owned());
    b.push("crane".to_owned());
    b.push("crash".to_owned());
    b.push("crater".to_owned());
    b.push("crawl".to_owned());
    b.push("crazy".to_owned());
    b.push("cream".to_owned());
    b.push("credit".to_owned());
    b.push("creek".to_owned());
    b.push("crew".to_owned());
    b.push("cricket".to_owned());
    b.push("crime".to_owned());
    b.push("crisp".to_owned());
    b.push("critic".to_owned());
    b.push("crop".to_owned());
    b
}

fn words_part_13() -> (b: Vec<String>)
    ensures
        b@.len() == 32,
{
    let mut b: Vec<String> = Vec::new();
    b.push("cross".to_owned());
    b.push("crouch".to_owned());
    b.push("crowd".to_owned());
    b.push("crucial".to_owned());
    b.push("cruel".to_owned());
    b.push("cruise".to_owned());
    b.push("crumble".to_owned());
    b.push("crunch".to_owned());
    b.push("crush".to_owned());
    b.push("cry".to_owned());
    b.push("crystal".to_owned());
    b.push("cube".to_owned());
    b.push("culture".to_owned());
    b.push("cup".to_owned());
    b.push("cupboard".to_owned());
    b.push("curious".to_owned());
    b.push("current".to_owned());
    b.push("curtain".to_owned());
    b.push("curve".to_owned());
    b.push("cushion".to_owned());
    b.push("custom".to_owned());
    b.push("cute".to_owned());
    b.push("cycle".to_owned());
    b.push("dad".to_owned());
    b.push("damage".to_owned());
    b.push("damp".to_owned());
    b.push("dance".to_owned());
    b.push("danger".to_owned());
    b.push("daring".to_owned());
    b.push("dash".to_owned());
    b.push("daughter".to_owned());
    b.push("dawn".to_owned());
    b
}

fn words_part_14() -> (b: Vec<String>)
    ensures
        b@.len() == 32,
{
    let mut b: Vec<String> = Vec::new();
    b.push("day".to_owned());
    b.push("deal".to_owned());
    b.push("debate".to_owned());
    b.push("debris".to_owned());
    b.push("decade".to_owned());
    b.push("december".to_owned());
    b.push("decide".to_owned());
    b.push("decline".to_owned());
    b.push("decorate".to_owned());
    b.push("decrease".to_owned());
    b.push("deer".to_owned());
    b.push("defense".to_owned());
    b.push("define".to_owned());
    b.push("defy".to_owned());
    b.push("degree".to_owned());
    b.push("delay".to_owned());
    b.push("deliver".to_owned());
    b.push("demand".to_owned());
    b.push("demise".to_owned());
    b.push("denial".to_owned());
    b.push("dentist".to_owned());
    b.push("deny".to_owned());
    b.push("depart".to_owned());
    b.push("depend".to_owned());
    b.push("deposit".to_owned());
    b.push("depth".to_owned());
    b.push("deputy".to_owned());
    b.push("derive".to_owned());
    b.push("describe".to_owned());
    b.push("desert".to_owned());
    b.push("design".to_owned());
    b.push("desk".to_owned());
    b
}

fn words_part_15() -> (b: Vec<String>)
    ensures
        b@.len() == 32,
        b@[28]@ == "display"@,
{
    let mut b: Vec<String> = Vec::new();
    b.push("despair".to_owned());
    b.push("destroy".to_owned());
    b.push("detail".to_owned());
    b.push("detect".to_owned());
    b.push("develop".to_owned());
    b.push("device".to_owned());
    b.push("devote".to_owned());
    b.push("diagram".to_owned());
    b.push("dial".to_owned());
    b.push("diamond".to_owned());
    b.push("diary".to_owned());
    b.push("dice".to_owned());
    b.push("diesel".to_owned());
    b.push("diet".to_owned());
    b.push("differ".to_owned());
    b.push("digital".to_owned());
    b.push("dignity".to_owned());
    b.push("dilemma".to_owned());
    b.push("dinner".to_owned());
    b.push("dinosaur".to_owned());
    b.push("direct".to_owned());
    b.push("dirt".to_owned());
    b.push("disagree".to_owned());
    b.push("discover".to_owned());
    b.push("disease".to_owned());
    b.push("dish".to_owned());
    b.push("dismiss".to_owned());
    b.push("disorder".to_owned());
    b.push("display".to_owned());
    b.push("distance".to_owned());
    b.push("divert".to_owned());
    b.push("divide".to_owned());
    b
}

fn words_part_16() -> (b: Vec<String>)
    ensures
        b@.len() == 32,
{
    let mut b: Vec<String> = Vec::new();
    b.push("divorce".to_owned());
    b.push("dizzy".to_owned());
    b.push("doctor".to_owned());
    b.push("document".to_owned());
    b.push("dog".to_owned());
    b.push("doll".to_owned());
    b.push("dolphin".to_owned());
    b.push("domain".to_owned());
    b.push("donate".to_owned());
    b.push("donkey".to_owned());
    b.push("donor".to_owned());
    b.push("door".to_owned());
    b.push("dose".to_owned());
    b.push("double".to_owned());
    b.push("dove".to_owned());
    b.push("draft".to_owned());
    b.push("dragon".to_owned());
    b.push("drama".to_owned());
    b.push("drastic".to_owned());
    b.push("draw".to_owned());
    b.push("dream".to_owned());
    b.push("dress".to_owned());
    b.push("drift".to_owned());
    b.push("drill".to_owned());
    b.push("drink".to_owned());
    b.push("drip".to_owned());
    b.push("drive".to_owned());
    b.push("drop".to_owned());
    b.push("drum".to_owned());
    b.push("dry".to_owned());
    b.push("duck".to_owned());
    b.push("dumb".to_owned());
    b
}

fn words_part_17() -> (b: Vec<String>)
    ensures
        b@.len() == 32,
{
    let mut b: Vec<String> = Vec::new();
    b.push("dune".to_owned());
    b.push("during".to_owned());
    b.push("dust".to_owned());
    b.push("dutch".to_owned());
    b.push("duty".to_owned());
    b.push("dwarf".to_owned());
    b.push("dynamic".to_owned());
    b.push("eager".to_owned());
    b.push("eagle".to_owned());
    b.push("early".to_owned());
    b.push("earn".to_owned());
    b.push("earth".to_owned());
    b.push("easily".to_owned());
    b.push("east".to_owned());
    b.push("easy".to_owned());
    b.push("echo".to_owned());
    b.push("ecology".to_owned());
    b.push("economy".to_owned());
    b.push("edge".to_owned());
    b.push("edit".to_owned());
    b.push("educate".to_owned());
    b.push("effort".to_owned());
    b.push("egg".to_owned());
    b.push("eight".to_owned());
    b.push("either".to_owned());
    b.push("elbow".to_owned());
    b.push("elder".to_owned());
    b.push("electric".to_owned());
    b.push("elegant".to_owned());
    b.push("element".to_owned());
    b.push("elephant".to_owned());
    b.push("elevator".to_owned());
    b
}

fn words_part_18() -> (b: Vec<String>)
    ensures
        b@.len() == 32,
{
    let mut b: Vec<String> = Vec::new();
    b.push("elite".to_owned());
    b.push("else".to_owned());
    b.push("embark".to_owned());
    b.push("embody".to_owned());
    b.push("embrace".to_owned());
    b.push("emerge".to_owned());
    b.push("emotion".to_owned());
    b.push("employ".to_owned());
    b.push("empower".to_owned());
    b.push("empty".to_owned());
    b.push("enable".to_owned());
    b.push("enact".to_owned());
    b.push("end".to_owned());
    b.push("endless".to_owned());
    b.push("endorse".to_owned());
    b.push("enemy".to_owned());
    b.push("energy".to_owned());
    b.push("enforce".to_owned());
    b.push("engage".to_owned());
    b.push("engine".to_owned());
    b.push("enhance".to_owned());
    b.push("enjoy".to_owned());
    b.push("enlist".to_owned());
    b.push("enough".to_owned());
    b.push("enrich".to_owned());
    b.push("enroll".to_owned());
    b.push("ensure".to_owned());
    b.push("enter".to_owned());
    b.push("entire".to_owned());
    b.push("entry".to_owned());
    b.push("envelope".to_owned());
    b.push("episode".to_owned());
    b
}

fn words_part_19() -> (b: Vec<String>)
    ensures
        b@.len() == 32,
{
    let mut b: Vec<String> = Vec::new();
    b.push("equal".to_owned());
    b.push("equip".to_owned());
    b.push("era".to_owned());
    b.push("erase".to_owned());
    b.push("erode".to_owned());
    b.push("erosion".to_owned());
    b.push("error".to_owned());
    b.push("erupt".to_owned());
    b.push("escape".to_owned());
    b.push("essay".to_owned());
    b.push("essence".to_owned());
    b.push("estate".to_owned());
    b.push("eternal".to_owned());
    b.push("ethics".to_owned());
    b.push("evidence".to_owned());
    b.push("evil".to_owned());
    b.push("evoke".to_owned());
    b.push("evolve".to_owned());
    b.push("exact".to_owned());
    b.push("example".to_owned());
    b.push("excess".to_owned());
    b.push("exchange".to_owned());
    b.push("excite".to_owned());
    b.push("exclude".to_owned());
    b.push("excuse".to_owned());
    b.push("execute".to_owned());
    b.push("exercise".to_owned());
    b.push("exhaust".to_owned());
    b.push("exhibit".to_owned());
    b.push("exile".to_owned());
    b.push("exist".to_owned());
    b.push("exit".to_owned());
    b
}

fn words_part_20() -> (b: Vec<String>)
    ensures
        b@.len() == 32,
{
    let mut b: Vec<String> = Vec::new();
    b.push("exotic".to_owned());
    b.push("expand".to_owned());
    b.push("expect".to_owned());
    b.push("expire".to_owned());
    b.push("explain".to_owned());
    b.push("expose".to_owned());
    b.push("express".to_owned());
    b.push("extend".to_owned());
    b.push("extra".to_owned());
    b.push("eye".to_owned());
    b.push("eyebrow".to_owned());
    b.push("fabric".to_owned());
    b.push("face".to_owned());
    b.push("faculty".to_owned());
    b.push("fade".to_owned());
    b.push("faint".to_owned());
    b.push("faith".to_owned());
    b.push("fall".to_owned());
    b.push("false".to_owned());
    b.push("fame".to_owned());
    b.push("family".to_owned());
    b.push("famous".to_owned());
    b.push("fan".to_owned());
    b.push("fancy".to_owned());
    b.push("fantasy".to_owned());
    b.push("farm".to_owned());
    b.push("fashion".to_owned());
    b.push("fat".to_owned());
    b.push("fatal".to_owned());
    b.push("father".to_owned());
    b.push("fatigue".to_owned());
    b.push("fault".to_owned());
    b
}

fn words_part_21() -> (b: Vec<String>)
    ensures
        b@.len() == 32,
{
    let mut b: Vec<String> = Vec::new();
    b.push("favorite".to_owned());
    b.push("feature".to_owned());
    b.push("february".to_owned());
    b.push("federal".to_owned());
    b.push("fee".to_owned());
    b.push("feed".to_owned());
    b.push("feel".to_owned());
    b.push("female".to_owned());
    b.push("fence".to_owned());
    b.push("festival".to_owned());
    b.push("fetch".to_owned());
    b.push("fever".to_owned());
    b.push("few".to_owned());
    b.push("fiber".to_owned());
    b.push("fiction".to_owned());
    b.push("field".to_owned());
    b.push("figure".to_owned());
    b.push("file".to_owned());
    b.push("film".to_owned());
    b.push("filter".to_owned());
    b.push("final".to_owned());
    b.push("find".to_owned());
    b.push("fine".to_owned());
    b.push("finger".to_owned());
    b.push("finish".to_owned());
    b.push("fire".to_owned());
    b.push("firm".to_owned());
    b.push("first".to_owned());
    b.push("fiscal".to_owned());
    b.push("fish".to_owned());
    b.push("fit".to_owned());
    b.push("fitness".to_owned());
    b
}

fn words_part_22() -> (b: Vec<String>)
    ensures
        b@.len() == 32,
{
    let mut b: Vec<String> = Vec::new();
    b.push("fix".to_owned());
    b.push("flag".to_owned());
    b.push("flame".to_owned());
    b.push("flash".to_owned());
    b.push("flat".to_owned());
    b.push("flavor".to_owned());
    b.push("flee".to_owned());
    b.push("flight".to_owned());
    b.push("flip".to_owned());
    b.push("float".to_owned());
    b.push("flock".to_owned());
    b.push("floor".to_owned());
    b.push("flower".to_owned());
    b.push("fluid".to_owned());
    b.push("flush".to_owned());
    b.push("fly".to_owned());
    b.push("foam".to_owned());
    b.push("focus".to_owned());
    b.push("fog".to_owned());
    b.push("foil".to_owned());
    b.push("fold".to_owned());
    b.push("follow".to_owned());
    b.push("food".to_owned());
    b.push("foot".to_owned());
    b.push("force".to_owned());
    b.push("forest".to_owned());
    b.push("forget".to_owned());
    b.push("fork".to_owned());
    b.push("fortune".to_owned());
    b.push("forum".to_owned());
    b.push("forward".to_owned());
    b.push("fossil".to_owned());
    b
}

fn words_part_23() -> (b: Vec<String>)
    ensures
        b@.len() == 32,
{
    let mut b: Vec<String> = Vec::new();
    b.push("foster".to_owned());
    b.push("found".to_owned());
    b.push("fox".to_owned());
    b.push("fragile".to_owned());
    b.push("frame".to_owned());
    b.push("frequent".to_owned());
    b.push("fresh".to_owned());
    b.push("friend".to_owned());
    b.push("fringe".to_owned());
    b.push("frog".to_owned());
    b.push("front".to_owned());
    b.push("frost".to_owned());
    b.push("frown".to_owned());
    b.push("frozen".to_owned());
    b.push("fruit".to_owned());
    b.push("fuel".to_owned());
    b.push("fun".to_owned());
    b.push("funny".to_owned());
    b.push("furnace".to_owned());
    b.push("fury".to_owned());
    b.push("future".to_owned());
    b.push("gadget".to_owned());
    b.push("gain".to_owned());
    b.push("galaxy".to_owned());
    b.push("gallery".to_owned());
    b.push("game".to_owned());
    b.push("gap".to_owned());
    b.push("garage".to_owned());
    b.push("garbage".to_owned());
    b.push("garden".to_owned());
    b.push("garlic".to_owned());
    b.push("garment".to_owned());
    b
}

fn words_part_24() -> (b: Vec<String>)
    ensures
        b@.len() == 32,
{
    let mut b: Vec<String> = Vec::new();
    b.push("gas".to_owned());
    b.push("gasp".to_owned());
    b.push("gate".to_owned());
    b.push("gather".to_owned());
    b.push("gauge".to_owned());
    b.push("gaze".to_owned());
    b.push("general".to_owned());
    b.push("genius".to_owned());
    b.push("genre".to_owned());
    b.push("gentle".to_owned());
    b.push("genuine".to_owned());
    b.push("gesture".to_owned());
    b.push("ghost".to_owned());
    b.push("giant".to_owned());
    b.push("gift".to_owned());
    b.push("giggle".to_owned());
    b.push("ginger".to_owned());
    b.push("giraffe".to_owned());
    b.push("girl".to_owned());
    b.push("give".to_owned());
    b.push("glad".to_owned());
    b.push("glance".to_owned());
    b.push("glare".to_owned());
    b.push("glass".to_owned());
    b.push("glide".to_owned());
    b.push("glimpse".to_owned());
    b.push("globe".to_owned());
    b.push("gloom".to_owned());
    b.push("glory".to_owned());
    b.push("glove".to_owned());
    b.push("glow".to_owned());
    b.push("glue".to_owned());
    b
}

fn words_part_25() -> (b: Vec<String>)
    ensures
        b@.len() == 32,
{
    let mut b: Vec<String> = Vec::new();
    b.push("goat".to_owned());
    b.push("goddess".to_owned());
    b.push("gold".to_owned());
    b.push("good".to_owned());
    b.push("goose".to_owned());
    b.push("gorilla".to_owned());
    b.push("gospel".to_owned());
    b.push("gossip".to_owned());
    b.push("govern".to_owned());
    b.push("gown".to_owned());
    b.push("grab".to_owned());
    b.push("grace".to_owned());
    b.push("grain".to_owned());
    b.push("grant".to_owned());
    b.push("grape".to_owned());
    b.push("grass".to_owned());
    b.push("gravity".to_owned());
    b.push("great".to_owned());
    b.push("green".to_owned());
    b.push("grid".to_owned());
    b.push("grief".to_owned());
    b.push("grit".to_owned());
    b.push("grocery".to_owned());
    b.push("group".to_owned());
    b.push("grow".to_owned());
    b.push("grunt".to_owned());
    b.push("guard".to_owned());
    b.push("guess".to_owned());
    b.push("guide".to_owned());
    b.push("guilt".to_owned());
    b.push("guitar".to_owned());
    b.push("gun".to_owned());
    b
}

fn words_part_26() -> (b: Vec<String>)
    ensures
        b@.len() == 32,
{
    let mut b: Vec<String> = Vec::new();
    b.push("gym".to_owned());
    b.push("habit".to_owned());
    b.push("hair".to_owned());
    b.push("half".to_owned());
    b.push("hammer".to_owned());
    b.push("hamster".to_owned());
    b.push("hand".to_owned());
    b.push("happy".to_owned());
    b.push("harbor".to_owned());
    b.push("hard".to_owned());
    b.push("harsh".to_owned());
    b.push("harvest".to_owned());
    b.push("hat".to_owned());
    b.push("have".to_owned());
    b.push("hawk".to_owned());
    b.push("hazard".to_owned());
    b.push("head".to_owned());
    b.push("health".to_owned());
    b.push("heart".to_owned());
    b.push("heavy".to_owned());
    b.push("hedgehog".to_owned());
    b.push("height".to_owned());
    b.push("hello".to_owned());
    b.push("helmet".to_owned());
    b.push("help".to_owned());
    b.push("hen".to_owned());
    b.push("hero".to_owned());
    b.push("hidden".to_owned());
    b.push("high".to_owned());
    b.push("hill".to_owned());
    b.push("hint".to_owned());
    b.push("hip".to_owned());
    b
}

fn words_part_27() -> (b: Vec<String>)
    ensures
        b@.len() == 32,
{
    let mut b: Vec<String> = Vec::new();
    b.push("hire".to_owned());
    b.push("history".to_owned());
    b.push("hobby".to_owned());
    b.push("hockey".to_owned());
    b.push("hold".to_owned());
    b.push("hole".to_owned());
    b.push("holiday".to_owned());
    b.push("hollow".to_owned());
    b.push("home".to_owned());
    b.push("honey".to_owned());
    b.push("hood".to_owned());
    b.push("hope".to_owned());
    b.push("horn".to_owned());
    b.push("horror".to_owned());
    b.push("horse".to_owned());
    b.push("hospital".to_owned());
    b.push("host".to_owned());
    b.push("hotel".to_owned());
    b.push("hour".to_owned());
    b.push("hover".to_owned());
    b.push("hub".to_owned());
    b.push("huge".to_owned());
    b.push("human".to_owned());
    b.push("humble".to_owned());
    b.push("humor".to_owned());
    b.push("hundred".to_owned());
    b.push("hungry".to_owned());
    b.push("hunt".to_owned());
    b.push("hurdle".to_owned());
    b.push("hurry".to_owned());
    b.push("hurt".to_owned());
    b.push("husband".to_owned());
    b
}

fn words_part_28() -> (b: Vec<String>)
    ensures
        b@.len() == 32,
{
    let mut b: Vec<String> = Vec::new();
    b.push("hybrid".to_owned());
    b.push("ice".to_owned());
    b.push("icon".to_owned());
    b.push("idea".to_owned());
    b.push("identify".to_owned());
    b.push("idle".to_owned());
    b.push("ignore".to_owned());
    b.push("ill".to_owned());
    b.push("illegal".to_owned());
    b.push("illness".to_owned());
    b.push("image".to_owned());
    b.push("imitate".to_owned());
    b.push("immense".to_owned());
    b.push("immune".to_owned());
    b.push("impact".to_owned());
    b.push("impose".to_owned());
    b.push("improve".to_owned());
    b.push("impulse".to_owned());
    b.push("inch".to_owned());
    b.push("include".to_owned());
    b.push("income".to_owned());
    b.push("increase".to_owned());
    b.push("index".to_owned());
    b.push("indicate".to_owned());
    b.push("indoor".to_owned());
    b.push("industry".to_owned());
    b.push("infant".to_owned());
    b.push("inflict".to_owned());
    b.push("inform".to_owned());
    b.push("inhale".to_owned());
    b.push("inherit".to_owned());
    b.push("initial".to_owned());
    b
}

fn words_part_29() -> (b: Vec<String>)
    ensures
        b@.len() == 32,
{
    let mut b: Vec<String> = Vec::new();
    b.push("inject".to_owned());
    b.push("injury".to_owned());
    b.push("inmate".to_owned());
    b.push("inner".to_owned());
    b.push("innocent".to_owned());
    b.push("input".to_owned());
    b.push("inquiry".to_owned());
    b.push("insane".to_owned());
    b.push("insect".to_owned());
    b.push("inside".to_owned());
    b.push("inspire".to_owned());
    b.push("install".to_owned());
    b.push("intact".to_owned());
    b.push("interest".to_owned());
    b.push("into".to_owned());
    b.push("invest".to_owned());
    b.push("invite".to_owned());
    b.push("involve".to_owned());
    b.push("iron".to_owned());
    b.push("island".to_owned());
    b.push("isolate".to_owned());
    b.push("issue".to_owned());
    b.push("item".to_owned());
    b.push("ivory".to_owned());
    b.push("jacket".to_owned());
    b.push("jaguar".to_owned());
    b.push("jar".to_owned());
    b.push("jazz".to_owned());
    b.push("jealous".to_owned());
    b.push("jeans".to_owned());
    b.push("jelly".to_owned());
    b.push("jewel".to_owned());
    b
}

fn words_part_30() -> (b: Vec<String>)
    ensures
        b@.len() == 32,
{
    let mut b: Vec<String> = Vec::new();
    b.push("job".to_owned());
    b.push("join".to_owned());
    b.push("joke".to_owned());
    b.push("journey".to_owned());
    b.push("joy".to_owned());
    b.push("judge".to_owned());
    b.push("juice".to_owned());
    b.push("jump".to_owned());
    b.push("jungle".to_owned());
    b.push("junior".to_owned());
    b.push("junk".to_owned());
    b.push("just".to_owned());
    b.push("kangaroo".to_owned());
    b.push("keen".to_owned());
    b.push("keep".to_owned());
    b.push("ketchup".to_owned());
    b.push("key".to_owned());
    b.push("kick".to_owned());
    b.push("kid".to_owned());
    b.push("kidney".to_owned());
    b.push("kind".to_owned());
    b.push("kingdom".to_owned());
    b.push("kiss".to_owned());
    b.push("kit".to_owned());
    b.push("kitchen".to_owned());
    b.push("kite".to_owned());
    b.push("kitten".to_owned());
    b.push("kiwi".to_owned());
    b.push("knee".to_owned());
    b.push("knife".to_owned());
    b.push("knock".to_owned());
    b.push("know".to_owned());
    b
}

fn words_part_31() -> (b: Vec<String>)
    ensures
        b@.len() == 32,
{
    let mut b: Vec<String> = Vec::new();
    b.push("lab".to_owned());
    b.push("label".to_owned());
    b.push("labor".to_owned());
    b.push("ladder".to_owned());
    b.push("lady".to_owned());
    b.push("lake".to_owned());
    b.push("lamp".to_owned());
    b.push("language".to_owned());
    b.push("laptop".to_owned());
    b.push("large".to_owned());
    b.push("later".to_owned());
    b.push("latin".to_owned());
    b.push("laugh".to_owned());
    b.push("laundry".to_owned());
    b.push("lava".to_owned());
    b.push("law".to_owned());
    b.push("lawn".to_owned());
    b.push("lawsuit".to_owned());
    b.push("layer".to_owned());
    b.push("lazy".to_owned());
    b.push("leader".to_owned());
    b.push("leaf".to_owned());
    b.push("learn".to_owned());
    b.push("leave".to_owned());
    b.push("lecture".to_owned());
    b.push("left".to_owned());
    b.push("leg".to_owned());
    b.push("legal".to_owned());
    b.push("legend".to_owned());
    b.push("leisure".to_owned());
    b.push("lemon".to_owned());
    b.push("lend".to_owned());
    b
}

fn words_part_32() -> (b: Vec<String>)
    ensures
        b@.len() == 32,
{
    let mut b: Vec<String> = Vec::new();
    b.push("length".to_owned());
    b.push("lens".to_owned());
    b.push("leopard".to_owned());
    b.push("lesson".to_owned());
    b.push("letter".to_owned());
    b.push("level".to_owned());
    b.push("liar".to_owned());
    b.push("liberty".to_owned());
    b.push("library".to_owned());
    b.push("license".to_owned());
    b.push("life".to_owned());
    b.push("lift".to_owned());
    b.push("light".to_owned());
    b.push("like".to_owned());
    b.push("limb".to_owned());
    b.push("limit".to_owned());
    b.push("link".to_owned());
    b.push("lion".to_owned());
    b.push("liquid".to_owned());
    b.push("list".to_owned());
    b.push("little".to_owned());
    b.push("live".to_owned());
    b.push("lizard".to_owned());
    b.push("load".to_owned());
    b.push("loan".to_owned());
    b.push("lobster".to_owned());
    b.push("local".to_owned());
    b.push("lock".to_owned());
    b.push("logic".to_owned());
    b.push("lonely".to_owned());
    b.push("long".to_owned());
    b.push("loop".to_owned());
    b
}

fn words_part_33() -> (b: Vec<String>)
    ensures
        b@.len() == 32,
{
    let mut b: Vec<String> = Vec::new();
    b.push("lottery".to_owned());
    b.push("loud".to_owned());
    b.push("lounge".to_owned());
    b.push("love".to_owned());
    b.push("loyal".to_owned());
    b.push("lucky".to_owned());
    b.push("luggage".to_owned());
    b.push("lumber".to_owned());
    b.push("lunar".to_owned());
    b.push("lunch".to_owned());
    b.push("luxury".to_owned());
    b.push("lyrics".to_owned());
    b.push("machine".to_owned());
    b.push("mad".to_owned());
    b.push("magic".to_owned());
    b.push("magnet".to_owned());
    b.push("maid".to_owned());
    b.push("mail".to_owned());
    b.push("main".to_owned());
    b.push("major".to_owned());
    b.push("make".to_owned());
    b.push("mammal".to_owned());
    b.push("man".to_owned());
    b.push("manage".to_owned());
    b.push("mandate".to_owned());
    b.push("mango".to_owned());
    b.push("mansion".to_owned());
    b.push("manual".to_owned());
    b.push("maple".to_owned());
    b.push("marble".to_owned());
    b.push("march".to_owned());
    b.push("margin".to_owned());
    b
}

fn words_part_34() -> (b: Vec<String>)
    ensures
        b@.len() == 32,
{
    let mut b: Vec<String> = Vec::new();
    b.push("marine".to_owned());
    b.push("market".to_owned());
    b.push("marriage".to_owned());
    b.push("mask".to_owned());
    b.push("mass".to_owned());
    b.push("master".to_owned());
    b.push("match".to_owned());
    b.push("material".to_owned());
    b.push("math".to_owned());
    b.push("matrix".to_owned());
    b.push("matter".to_owned());
    b.push("maximum".to_owned());
    b.push("maze".to_owned());
    b.push("meadow".to_owned());
    b.push("mean".to_owned());
    b.push("measure".to_owned());
    b.push("meat".to_owned());
    b.push("mechanic".to_owned());
    b.push("medal".to_owned());
    b.push("media".to_owned());
    b.push("melody".to_owned());
    b.push("melt".to_owned());
    b.push("member".to_owned());
    b.push("memory".to_owned());
    b.push("mention".to_owned());
    b.push("menu".to_owned());
    b.push("mercy".to_owned());
    b.push("merge".to_owned());
    b.push("merit".to_owned());
    b.push("merry".to_owned());
    b.push("mesh".to_owned());
    b.push("message".to_owned());
    b
}

fn words_part_35() -> (b: Vec<String>)
    ensures
        b@.len() == 32,
{
    let mut b: Vec<String> = Vec::new();
    b.push("metal".to_owned());
    b.push("method".to_owned());
    b.push("middle".to_owned());
    b.push("midnight".to_owned());
    b.push("milk".to_owned());
    b.push("million".to_owned());
    b.push("mimic".to_owned());
    b.push("mind".to_owned());
    b.push("minimum".to_owned());
    b.push("minor".to_owned());
    b.push("minute".to_owned());
    b.push("miracle".to_owned());
    b.push("mirror".to_owned());
    b.push("misery".to_owned());
    b.push("miss".to_owned());
    b.push("mistake".to_owned());
    b.push("mix".to_owned());
    b.push("mixed".to_owned());
    b.push("mixture".to_owned());
    b.push("mobile".to_owned());
    b.push("model".to_owned());
    b.push("modify".to_owned());
    b.push("mom".to_owned());
    b.push("moment".to_owned());
    b.push("monitor".to_owned());
    b.push("monkey".to_owned());
    b.push("monster".to_owned());
    b.push("month".to_owned());
    b.push("moon".to_owned());
    b.push("moral".to_owned());
    b.push("more".to_owned());
    b.push("morning".to_owned());
    b
}

fn words_part_36() -> (b: Vec<String>)
    ensures
        b@.len() == 32,
{
    let mut b: Vec<String> = Vec::new();
    b.push("mosquito".to_owned());
    b.push("mother".to_owned());
    b.push("motion".to_owned());
    b.push("motor".to_owned());
    b.push("mountain".to_owned());
    b.push("mouse".to_owned());
    b.push("move".to_owned());
    b.push("movie".to_owned());
    b.push("much".to_owned());
    b.push("muffin".to_owned());
    b.push("mule".to_owned());
    b.push("multiply".to_owned());
    b.push("muscle".to_owned());
    b.push("museum".to_owned());
    b.push("mushroom".to_owned());
    b.push("music".to_owned());
    b.push("must".to_owned());
    b.push("mutual".to_owned());
    b.push("myself".to_owned());
    b.push("mystery".to_owned());
    b.push("myth".to_owned());
    b.push("naive".to_owned());
    b.push("name".to_owned());
    b.push("napkin".to_owned());
    b.push("narrow".to_owned());
    b.push("nasty".to_owned());
    b.push("nation".to_owned());
    b.push("nature".to_owned());
    b.push("near".to_owned());
    b.push("neck".to_owned());
    b.push("need".to_owned());
    b.push("negative".to_owned());
    b
}

fn words_part_37() -> (b: Vec<String>)
    ensures
        b@.len() == 32,
{
    let mut b: Vec<String> = Vec::new();
    b.push("neglect".to_owned());
    b.push("neither".to_owned());
    b.push("nephew".to_owned());
    b.push("nerve".to_owned());
    b.push("nest".to_owned());
    b.push("net".to_owned());
    b.push("network".to_owned());
    b.push("neutral".to_owned());
    b.push("never".to_owned());
    b.push("news".to_owned());
    b.push("next".to_owned());
    b.push("nice".to_owned());
    b.push("night".to_owned());
    b.push("noble".to_owned());
    b.push("noise".to_owned());
    b.push("nominee".to_owned());
    b.push("noodle".to_owned());
    b.push("normal".to_owned());
    b.push("north".to_owned());
    b.push("nose".to_owned());
    b.push("notable".to_owned());
    b.push("note".to_owned());
    b.push("nothing".to_owned());
    b.push("notice".to_owned());
    b.push("novel".to_owned());
    b.push("now".to_owned());
    b.push("nuclear".to_owned());
    b.push("number".to_owned());
    b.push("nurse".to_owned());
    b.push("nut".to_owned());
    b.push("oak".to_owned());
    b.push("obey".to_owned());
    b
}

fn words_part_38() -> (b: Vec<String>)
    ensures
        b@.len() == 32,
{
    let mut b: Vec<String> = Vec::new();
    b.push("object".to_owned());
    b.push("oblige".to_owned());
    b.push("obscure".to_owned());
    b.push("observe".to_owned());
    b.push("obtain".to_owned());
    b.push("obvious".to_owned());
    b.push("occur".to_owned());
    b.push("ocean".to_owned());
    b.push("october".to_owned());
    b.push("odor".to_owned());
    b.push("off".to_owned());
    b.push("offer".to_owned());
    b.push("office".to_owned());
    b.push("often".to_owned());
    b.push("oil".to_owned());
    b.push("okay".to_owned());
    b.push("old".to_owned());
    b.push("olive".to_owned());
    b.push("olympic".to_owned());
    b.push("omit".to_owned());
    b.push("once".to_owned());
    b.push("one".to_owned());
    b.push("onion".to_owned());
    b.push("online".to_owned());
    b.push("only".to_owned());
    b.push("open".to_owned());
    b.push("opera".to_owned());
    b.push("opinion".to_owned());
    b.push("oppose".to_owned());
    b.push("option".to_owned());
    b.push("orange".to_owned());
    b.push("orbit".to_owned());
    b
}

fn words_part_39() -> (b: Vec<String>)
    ensures
        b@.len() == 32,
{
    let mut b: Vec<String> = Vec::new();
    b.push("orchard".to_owned());
    b.push("order".to_owned());
    b.push("ordinary".to_owned());
    b.push("organ".to_owned());
    b.push("orient".to_owned());
    b.push("original".to_owned());
    b.push("orphan".to_owned());
    b.push("ostrich".to_owned());
    b.push("other".to_owned());
    b.push("outdoor".to_owned());
    b.push("outer".to_owned());
    b.push("output".to_owned());
    b.push("outside".to_owned());
    b.push("oval".to_owned());
    b.push("oven".to_owned());
    b.push("over".to_owned());
    b.push("own".to_owned());
    b.push("owner".to_owned());
    b.push("oxygen".to_owned());
    b.push("oyster".to_owned());
    b.push("ozone".to_owned());
    b.push("pact".to_owned());
    b.push("paddle".to_owned());
    b.push("page".to_owned());
    b.push("pair".to_owned());
    b.push("palace".to_owned());
    b.push("palm".to_owned());
    b.push("panda".to_owned());
    b.push("panel".to_owned());
    b.push("panic".to_owned());
    b.push("panther".to_owned());
    b.push("paper".to_owned());
    b
}

fn words_part_40() -> (b: Vec<String>)
    ensures
        b@.len() == 32,
{
    let mut b: Vec<String> = Vec::new();
    b.push("parade".to_owned());
    b.push("parent".to_owned());
    b.push("park".to_owned());
    b.push("parrot".to_owned());
    b.push("party".to_owned());
    b.push("pass".to_owned());
    b.push("patch".to_owned());
    b.push("path".to_owned());
    b.push("patient".to_owned());
    b.push("patrol".to_owned());
    b.push("pattern".to_owned());
    b.push("pause".to_owned());
    b.push("pave".to_owned());
    b.push("payment".to_owned());
    b.push("peace".to_owned());
    b.push("peanut".to_owned());
    b.push("pear".to_owned());
    b.push("peasant".to_owned());
    b.push("pelican".to_owned());
    b.push("pen".to_owned());
    b.push("penalty".to_owned());
    b.push("pencil".to_owned());
    b.push("people".to_owned());
    b.push("pepper".to_owned());
    b.push("perfect".to_owned());
    b.push("permit".to_owned());
    b.push("person".to_owned());
    b.push("pet".to_owned());
    b.push("phone".to_owned());
    b.push("photo".to_owned());
    b.push("phrase".to_owned());
    b.push("physical".to_owned());
    b
}

fn words_part_41() -> (b: Vec<String>)
    ensures
        b@.len() == 32,
{
    let mut b: Vec<String> = Vec::new();
    b.push("piano".to_owned());
    b.push("picnic".to_owned());
    b.push("picture".to_owned());
    b.push("piece".to_owned());
    b.push("pig".to_owned());
    b.push("pigeon".to_owned());
    b.push("pill".to_owned());
    b.push("pilot".to_owned());
    b.push("pink".to_owned());
    b.push("pioneer".to_owned());
    b.push("pipe".to_owned());
    b.push("pistol".to_owned());
    b.push("pitch".to_owned());
    b.push("pizza".to_owned());
    b.push("place".to_owned());
    b.push("planet".to_owned());
    b.push("plastic".to_owned());
    b.push("plate".to_owned());
    b.push("play".to_owned());
    b.push("please".to_owned());
    b.push("pledge".to_owned());
    b.push("pluck".to_owned());
    b.push("plug".to_owned());
    b.push("plunge".to_owned());
    b.push("poem".to_owned());
    b.push("poet".to_owned());
    b.push("point".to_owned());
    b.push("polar".to_owned());
    b.push("pole".to_owned());
    b.push("police".to_owned());
    b.push("pond".to_owned());
    b.push("pony".to_owned());
    b
}

fn words_part_42() -> (b: Vec<String>)
    ensures
        b@.len() == 32,
{
    let mut b: Vec<String> = Vec::new();
    b.push("pool".to_owned());
    b.push("popular".to_owned());
    b.push("portion".to_owned());
    b.push("position".to_owned());
    b.push("possible".to_owned());
    b.push("post".to_owned());
    b.push("potato".to_owned());
    b.push("pottery".to_owned());
    b.push("poverty".to_owned());
    b.push("powder".to_owned());
    b.push("power".to_owned());
    b.push("practice".to_owned());
    b.push("praise".to_owned());
    b.push("predict".to_owned());
    b.push("prefer".to_owned());
    b.push("prepare".to_owned());
    b.push("present".to_owned());
    b.push("pretty".to_owned());
    b.push("prevent".to_owned());
    b.push("price".to_owned());
    b.push("pride".to_owned());
    b.push("primary".to_owned());
    b.push("print".to_owned());
    b.push("priority".to_owned());
    b.push("prison".to_owned());
    b.push("private".to_owned());
    b.push("prize".to_owned());
    b.push("problem".to_owned());
    b.push("process".to_owned());
    b.push("produce".to_owned());
    b.push("profit".to_owned());
    b.push("program".to_owned());
    b
}

fn words_part_43() -> (b: Vec<String>)
    ensures
        b@.len() == 32,
{
    let mut b: Vec<String> = Vec::new();
    b.push("project".to_owned());
    b.push("promote".to_owned());
    b.push("proof".to_owned());
    b.push("property".to_owned());
    b.push("prosper".to_owned());
    b.push("protect".to_owned());
    b.push("proud".to_owned());
    b.push("provide".to_owned());
    b.push("public".to_owned());
    b.push("pudding".to_owned());
    b.push("pull".to_owned());
    b.push("pulp".to_owned());
    b.push("pulse".to_owned());
    b.push("pumpkin".to_owned());
    b.push("punch".to_owned());
    b.push("pupil".to_owned());
    b.push("puppy".to_owned());
    b.push("purchase".to_owned());
    b.push("purity".to_owned());
    b.push("purpose".to_owned());
    b.push("purse".to_owned());
    b.push("push".to_owned());
    b.push("put".to_owned());
    b.push("puzzle".to_owned());
    b.push("pyramid".to_owned());
    b.push("quality".to_owned());
    b.push("quantum".to_owned());
    b.push("quarter".to_owned());
    b.push("question".to_owned());
    b.push("quick".to_owned());
    b.push("quit".to_owned());
    b.push("quiz".to_owned());
    b
}

fn words_part_44() -> (b: Vec<String>)
    ensures
        b@.len() == 32,
{
    let mut b: Vec<String> = Vec::new();
    b.push("quote".to_owned());
    b.push("rabbit".to_owned());
    b.push("raccoon".to_owned());
    b.push("race".to_owned());
    b.push("rack".to_owned());
    b.push("radar".to_owned());
    b.push("radio".to_owned());
    b.push("rail".to_owned());
    b.push("rain".to_owned());
    b.push("raise".to_owned());
    b.push("rally".to_owned());
    b.push("ramp".to_owned());
    b.push("ranch".to_owned());
    b.push("random".to_owned());
    b.push("range".to_owned());
    b.push("rapid".to_owned());
    b.push("rare".to_owned());
    b.push("rate".to_owned());
    b.push("rather".to_owned());
    b.push("raven".to_owned());
    b.push("raw".to_owned());
    b.push("razor".to_owned());
    b.push("ready".to_owned());
    b.push("real".to_owned());
    b.push("reason".to_owned());
    b.push("rebel".to_owned());
    b.push("rebuild".to_owned());
    b.push("recall".to_owned());
    b.push("receive".to_owned());
    b.push("recipe".to_owned());
    b.push("record".to_owned());
    b.push("recycle".to_owned());
    b
}

fn words_part_45() -> (b: Vec<String>)
    ensures
        b@.len() == 32,
{
    let mut b: Vec<String> = Vec::new();
    b.push("reduce".to_owned());
    b.push("reflect".to_owned());
    b.push("reform".to_owned());
    b.push("refuse".to_owned());
    b.push("region".to_owned());
    b.push("regret".to_owned());
    b.push("regular".to_owned());
    b.push("reject".to_owned());
    b.push("relax".to_owned());
    b.push("release".to_owned());
    b.push("relief".to_owned());
    b.push("rely".to_owned());
    b.push("remain".to_owned());
    b.push("remember".to_owned());
    b.push("remind".to_owned());
    b.push("remove".to_owned());
    b.push("render".to_owned());
    b.push("renew".to_owned());
    b.push("rent".to_owned());
    b.push("reopen".to_owned());
    b.push("repair".to_owned());
    b.push("repeat".to_owned());
    b.push("replace".to_owned());
    b.push("report".to_owned());
    b.push("require".to_owned());
    b.push("rescue".to_owned());
    b.push("resemble".to_owned());
    b.push("resist".to_owned());
    b.push("resource".to_owned());
    b.push("response".to_owned());
    b.push("result".to_owned());
    b.push("retire".to_owned());
    b
}

fn words_part_46() -> (b: Vec<String>)
    ensures
        b@.len() == 32,
{
    let mut b: Vec<String> = Vec::new();
    b.push("retreat".to_owned());
    b.push("return".to_owned());
    b.push("reunion".to_owned());
    b.push("reveal".to_owned());
    b.push("review".to_owned());
    b.push("reward".to_owned());
    b.push("rhythm".to_owned());
    b.push("rib".to_owned());
    b.push("ribbon".to_owned());
    b.push("rice".to_owned());
    b.push("rich".to_owned());
    b.push("ride".to_owned());
    b.push("ridge".to_owned());
    b.push("rifle".to_owned());
    b.push("right".to_owned());
    b.push("rigid".to_owned());
    b.push("ring".to_owned());
    b.push("riot".to_owned());
    b.push("ripple".to_owned());
    b.push("risk".to_owned());
    b.push("ritual".to_owned());
    b.push("rival".to_owned());
    b.push("river".to_owned());
    b.push("road".to_owned());
    b.push("roast".to_owned());
    b.push("robot".to_owned());
    b.push("robust".to_owned());
    b.push("rocket".to_owned());
    b.push("romance".to_owned());
    b.push("roof".to_owned());
    b.push("rookie".to_owned());
    b.push("room".to_owned());
    b
}

fn words_part_47() -> (b: Vec<String>)
    ensures
        b@.len() == 32,
{
    let mut b: Vec<String> = Vec::new();
    b.push("rose".to_owned());
    b.push("rotate".to_owned());
    b.push("rough".to_owned());
    b.push("round".to_owned());
    b.push("route".to_owned());
    b.push("royal".to_owned());
    b.push("rubber".to_owned());
    b.push("rude".to_owned());
    b.push("rug".to_owned());
    b.push("rule".to_owned());
    b.push("run".to_owned());
    b.push("runway".to_owned());
    b.push("rural".to_owned());
    b.push("sad".to_owned());
    b.push("saddle".to_owned());
    b.push("sadness".to_owned());
    b.push("safe".to_owned());
    b.push("sail".to_owned());
    b.push("salad".to_owned());
    b.push("salmon".to_owned());
    b.push("salon".to_owned());
    b.push("salt".to_owned());
    b.push("salute".to_owned());
    b.push("same".to_owned());
    b.push("sample".to_owned());
    b.push("sand".to_owned());
    b.push("satisfy".to_owned());
    b.push("satoshi".to_owned());
    b.push("sauce".to_owned());
    b.push("sausage".to_owned());
    b.push("save".to_owned());
    b.push("say".to_owned());
    b
}

fn words_part_48() -> (b: Vec<String>)
    ensures
        b@.len() == 32,
{
    let mut b: Vec<String> = Vec::new();
    b.push("scale".to_owned());
    b.push("scan".to_owned());
    b.push("scare".to_owned());
    b.push("scatter".to_owned());
    b.push("scene".to_owned());
    b.push("scheme".to_owned());
    b.push("school".to_owned());
    b.push("science".to_owned());
    b.push("scissors".to_owned());
    b.push("scorpion".to_owned());
    b.push("scout".to_owned());
    b.push("scrap".to_owned());
    b.push("screen".to_owned());
    b.push("script".to_owned());
    b.push("scrub".to_owned());
    b.push("sea".to_owned());
    b.push("search".to_owned());
    b.push("season".to_owned());
    b.push("seat".to_owned());
    b.push("second".to_owned());
    b.push("secret".to_owned());
    b.push("section".to_owned());
    b.push("security".to_owned());
    b.push("seed".to_owned());
    b.push("seek".to_owned());
    b.push("segment".to_owned());
    b.push("select".to_owned());
    b.push("sell".to_owned());
    b.push("seminar".to_owned());
    b.push("senior".to_owned());
    b.push("sense".to_owned());
    b.push("sentence".to_owned());
    b
}

fn words_part_49() -> (b: Vec<String>)
    ensures
        b@.len() == 32,
{
    let mut b: Vec<String> = Vec::new();
    b.push("series".to_owned());
    b.push("service".to_owned());
    b.push("session".to_owned());
    b.push("settle".to_owned());
    b.push("setup".to_owned());
    b.push("seven".to_owned());
    b.push("shadow".to_owned());
    b.push("shaft".to_owned());
    b.push("shallow".to_owned());
    b.push("share".to_owned());
    b.push("shed".to_owned());
    b.push("shell".to_owned());
    b.push("sheriff".to_owned());
    b.push("shield".to_owned());
    b.push("shift".to_owned());
    b.push("shine".to_owned());
    b.push("ship".to_owned());
    b.push("shiver".to_owned());
    b.push("shock".to_owned());
    b.push("shoe".to_owned());
    b.push("shoot".to_owned());
    b.push("shop".to_owned());
    b.push("short".to_owned());
    b.push("shoulder".to_owned());
    b.push("shove".to_owned());
    b.push("shrimp".to_owned());
    b.push("shrug".to_owned());
    b.push("shuffle".to_owned());
    b.push("shy".to_owned());
    b.push("sibling".to_owned());
    b.push("sick".to_owned());
    b.push("side".to_owned());
    b
}

fn words_part_50() -> (b: Vec<String>)
    ensures
        b@.len() == 32,
{
    let mut b: Vec<String> = Vec::new();
    b.push("siege".to_owned());
    b.push("sight".to_owned());
    b.push("sign".to_owned());
    b.push("silent".to_owned());
    b.push("silk".to_owned());
    b.push("silly".to_owned());
    b.push("silver".to_owned());
    b.push("similar".to_owned());
    b.push("simple".to_owned());
    b.push("since".to_owned());
    b.push("sing".to_owned());
    b.push("siren".to_owned());
    b.push("sister".to_owned());
    b.push("situate".to_owned());
    b.push("six".to_owned());
    b.push("size".to_owned());
    b.push("skate".to_owned());
    b.push("sketch".to_owned());
    b.push("ski".to_owned());
    b.push("skill".to_owned());
    b.push("skin".to_owned());
    b.push("skirt".to_owned());
    b.push("skull".to_owned());
    b.push("slab".to_owned());
    b.push("slam".to_owned());
    b.push("sleep".to_owned());
    b.push("slender".to_owned());
    b.push("slice".to_owned());
    b.push("slide".to_owned());
    b.push("slight".to_owned());
    b.push("slim".to_owned());
    b.push("slogan".to_owned());
    b
}

fn words_part_51() -> (b: Vec<String>)
    ensures
        b@.len() == 32,
{
    let mut b: Vec<String> = Vec::new();
    b.push("slot".to_owned());
    b.push("slow".to_owned());
    b.push("slush".to_owned());
    b.push("small".to_owned());
    b.push("smart".to_owned());
    b.push("smile".to_owned());
    b.push("smoke".to_owned());
    b.push("smooth".to_owned());
    b.push("snack".to_owned());
    b.push("snake".to_owned());
    b.push("snap".to_owned());
    b.push("sniff".to_owned());
    b.push("snow".to_owned());
    b.push("soap".to_owned());
    b.push("soccer".to_owned());
    b.push("social".to_owned());
    b.push("sock".to_owned());
    b.push("soda".to_owned());
    b.push("soft".to_owned());
    b.push("solar".to_owned());
    b.push("soldier".to_owned());
    b.push("solid".to_owned());
    b.push("solution".to_owned());
    b.push("solve".to_owned());
    b.push("someone".to_owned());
    b.push("song".to_owned());
    b.push("soon".to_owned());
    b.push("sorry".to_owned());
    b.push("sort".to_owned());
    b.push("soul".to_owned());
    b.push("sound".to_owned());
    b.push("soup".to_owned());
    b
}

fn words_part_52() -> (b: Vec<String>)
    ensures
        b@.len() == 32,
{
    let mut b: Vec<String> = Vec::new();
    b.push("source".to_owned());
    b.push("south".to_owned());
    b.push("space".to_owned());
    b.push("spare".to_owned());
    b.push("spatial".to_owned());
    b.push("spawn".to_owned());
    b.push("speak".to_owned());
    b.push("special".to_owned());
    b.push("speed".to_owned());
    b.push("spell".to_owned());
    b.push("spend".to_owned());
    b.push("sphere".to_owned());
    b.push("spice".to_owned());
    b.push("spider".to_owned());
    b.push("spike".to_owned());
    b.push("spin".to_owned());
    b.push("spirit".to_owned());
    b.push("split".to_owned());
    b.push("spoil".to_owned());
    b.push("sponsor".to_owned());
    b.push("spoon".to_owned());
    b.push("sport".to_owned());
    b.push("spot".to_owned());
    b.push("spray".to_owned());
    b.push("spread".to_owned());
    b.push("spring".to_owned());
    b.push("spy".to_owned());
    b.push("square".to_owned());
    b.push("squeeze".to_owned());
    b.push("squirrel".to_owned());
    b.push("stable".to_owned());
    b.push("stadium".to_owned());
    b
}

fn words_part_53() -> (b: Vec<String>)
    ensures
        b@.len() == 32,
{
    let mut b: Vec<String> = Vec::new();
    b.push("staff".to_owned());
    b.push("stage".to_owned());
    b.push("stairs".to_owned());
    b.push("stamp".to_owned());
    b.push("stand".to_owned());
    b.push("start".to_owned());
    b.push("state".to_owned());
    b.push("stay".to_owned());
    b.push("steak".to_owned());
    b.push("steel".to_owned());
    b.push("stem".to_owned());
    b.push("step".to_owned());
    b.push("stereo".to_owned());
    b.push("stick".to_owned());
    b.push("still".to_owned());
    b.push("sting".to_owned());
    b.push("stock".to_owned());
    b.push("stomach".to_owned());
    b.push("stone".to_owned());
    b.push("stool".to_owned());
    b.push("story".to_owned());
    b.push("stove".to_owned());
    b.push("strategy".to_owned());
    b.push("street".to_owned());
    b.push("strike".to_owned());
    b.push("strong".to_owned());
    b.push("struggle".to_owned());
    b.push("student".to_owned());
    b.push("stuff".to_owned());
    b.push("stumble".to_owned());
    b.push("style".to_owned());
    b.push("subject".to_owned());
    b
}

fn words_part_54() -> (b: Vec<String>)
    ensures
        b@.len() == 32,
{
    let mut b: Vec<String> = Vec::new();
    b.push("submit".to_owned());
    b.push("subway".to_owned());
    b.push("success".to_owned());
    b.push("such".to_owned());
    b.push("sudden".to_owned());
    b.push("suffer".to_owned());
    b.push("sugar".to_owned());
    b.push("suggest".to_owned());
    b.push("suit".to_owned());
    b.push("summer".to_owned());
    b.push("sun".to_owned());
    b.push("sunny".to_owned());
    b.push("sunset".to_owned());
    b.push("super".to_owned());
    b.push("supply".to_owned());
    b.push("supreme".to_owned());
    b.push("sure".to_owned());
    b.push("surface".to_owned());
    b.push("surge".to_owned());
    b.push("surprise".to_owned());
    b.push("surround".to_owned());
    b.push("survey".to_owned());
    b.push("suspect".to_owned());
    b.push("sustain".to_owned());
    b.push("swallow".to_owned());
    b.push("swamp".to_owned());
    b.push("swap".to_owned());
    b.push("swarm".to_owned());
    b.push("swear".to_owned());
    b.push("sweet".to_owned());
    b.push("swift".to_owned());
    b.push("swim".to_owned());
    b
}

fn words_part_55() -> (b: Vec<String>)
    ensures
        b@.len() == 32,
{
    let mut b: Vec<String> = Vec::new();
    b.push("swing".to_owned());
    b.push("switch".to_owned());
    b.push("sword".to_owned());
    b.push("symbol".to_owned());
    b.push("symptom".to_owned());
    b.push("syrup".to_owned());
    b.push("system".to_owned());
    b.push("table".to_owned());
    b.push("tackle".to_owned());
    b.push("tag".to_owned());
    b.push("tail".to_owned());
    b.push("talent".to_owned());
    b.push("talk".to_owned());
    b.push("tank".to_owned());
    b.push("tape".to_owned());
    b.push("target".to_owned());
    b.push("task".to_owned());
    b.push("taste".to_owned());
    b.push("tattoo".to_owned());
    b.push("taxi".to_owned());
    b.push("teach".to_owned());
    b.push("team".to_owned());
    b.push("tell".to_owned());
    b.push("ten".to_owned());
    b.push("tenant".to_owned());
    b.push("tennis".to_owned());
    b.push("tent".to_owned());
    b.push("term".to_owned());
    b.push("test".to_owned());
    b.push("text".to_owned());
    b.push("thank".to_owned());
    b.push("that".to_owned());
    b
}

fn words_part_56() -> (b: Vec<String>)
    ensures
        b@.len() == 32,
{
    let mut b: Vec<String> = Vec::new();
    b.push("theme".to_owned());
    b.push("then".to_owned());
    b.push("theory".to_owned());
    b.push("there".to_owned());
    b.push("they".to_owned());
    b.push("thing".to_owned());
    b.push("this".to_owned());
    b.push("thought".to_owned());
    b.push("three".to_owned());
    b.push("thrive".to_owned());
    b.push("throw".to_owned());
    b.push("thumb".to_owned());
    b.push("thunder".to_owned());
    b.push("ticket".to_owned());
    b.push("tide".to_owned());
    b.push("tiger".to_owned());
    b.push("tilt".to_owned());
    b.push("timber".to_owned());
    b.push("time".to_owned());
    b.push("tiny".to_owned());
    b.push("tip".to_owned());
    b.push("tired".to_owned());
    b.push("tissue".to_owned());
    b.push("title".to_owned());
    b.push("toast".to_owned());
    b.push("tobacco".to_owned());
    b.push("today".to_owned());
    b.push("toddler".to_owned());
    b.push("toe".to_owned());
    b.push("together".to_owned());
    b.push("toilet".to_owned());
    b.push("token".to_owned());
    b
}

fn words_part_57() -> (b: Vec<String>)
    ensures
        b@.len() == 32,
{
    let mut b: Vec<String> = Vec::new();
    b.push("tomato".to_owned());
    b.push("tomorrow".to_owned());
    b.push("tone".to_owned());
    b.push("tongue".to_owned());
    b.push("tonight".to_owned());
    b.push("tool".to_owned());
    b.push("tooth".to_owned());
    b.push("top".to_owned());
    b.push("topic".to_owned());
    b.push("topple".to_owned());
    b.push("torch".to_owned());
    b.push("tornado".to_owned());
    b.push("tortoise".to_owned());
    b.push("toss".to_owned());
    b.push("total".to_owned());
    b.push("tourist".to_owned());
    b.push("toward".to_owned());
    b.push("tower".to_owned());
    b.push("town".to_owned());
    b.push("toy".to_owned());
    b.push("track".to_owned());
    b.push("trade".to_owned());
    b.push("traffic".to_owned());
    b.push("tragic".to_owned());
    b.push("train".to_owned());
    b.push("transfer".to_owned());
    b.push("trap".to_owned());
    b.push("trash".to_owned());
    b.push("travel".to_owned());
    b.push("tray".to_owned());
    b.push("treat".to_owned());
    b.push("tree".to_owned());
    b
}

fn words_part_58() -> (b: Vec<String>)
    ensures
        b@.len() == 32,
{
    let mut b: Vec<String> = Vec::new();
    b.push("trend".to_owned());
    b.push("trial".to_owned());
    b.push("tribe".to_owned());
    b.push("trick".to_owned());
    b.push("trigger".to_owned());
    b.push("trim".to_owned());
    b.push("trip".to_owned());
    b.push("trophy".to_owned());
    b.push("trouble".to_owned());
    b.push("truck".to_owned());
    b.push("true".to_owned());
    b.push("truly".to_owned());
    b.push("trumpet".to_owned());
    b.push("trust".to_owned());
    b.push("truth".to_owned());
    b.push("try".to_owned());
    b.push("tube".to_owned());
    b.push("tuition".to_owned());
    b.push("tumble".to_owned());
    b.push("tuna".to_owned());
    b.push("tunnel".to_owned());
    b.push("turkey".to_owned());
    b.push("turn".to_owned());
    b.push("turtle".to_owned());
    b.push("twelve".to_owned());
    b.push("twenty".to_owned());
    b.push("twice".to_owned());
    b.push("twin".to_owned());
    b.push("twist".to_owned());
    b.push("two".to_owned());
    b.push("type".to_owned());
    b.push("typical".to_owned());
    b
}

fn words_part_59() -> (b: Vec<String>)
    ensures
        b@.len() == 32,
{
    let mut b: Vec<String> = Vec::new();
    b.push("ugly".to_owned());
    b.push("umbrella".to_owned());
    b.push("unable".to_owned());
    b.push("unaware".to_owned());
    b.push("uncle".to_owned());
    b.push("uncover".to_owned());
    b.push("under".to_owned());
    b.push("undo".to_owned());
    b.push("unfair".to_owned());
    b.push("unfold".to_owned());
    b.push("unhappy".to_owned());
    b.push("uniform".to_owned());
    b.push("unique".to_owned());
    b.push("unit".to_owned());
    b.push("universe".to_owned());
    b.push("unknown".to_owned());
    b.push("unlock".to_owned());
    b.push("until".to_owned());
    b.push("unusual".to_owned());
    b.push("unveil".to_owned());
    b.push("update".to_owned());
    b.push("upgrade".to_owned());
    b.push("uphold".to_owned());
    b.push("upon".to_owned());
    b.push("upper".to_owned());
    b.push("upset".to_owned());
    b.push("urban".to_owned());
    b.push("urge".to_owned());
    b.push("usage".to_owned());
    b.push("use".to_owned());
    b.push("used".to_owned());
    b.push("useful".to_owned());
    b
}

fn words_part_60() -> (b: Vec<String>)
    ensures
        b@.len() == 32,
{
    let mut b: Vec<String> = Vec::new();
    b.push("useless".to_owned());
    b.push("usual".to_owned());
    b.push("utility".to_owned());
    b.push("vacant".to_owned());
    b.push("vacuum".to_owned());
    b.push("vague".to_owned());
    b.push("valid".to_owned());
    b.push("valley".to_owned());
    b.push("valve".to_owned());
    b.push("van".to_owned());
    b.push("vanish".to_owned());
    b.push("vapor".to_owned());
    b.push("various".to_owned());
    b.push("vast".to_owned());
    b.push("vault".to_owned());
    b.push("vehicle".to_owned());
    b.push("velvet".to_owned());
    b.push("vendor".to_owned());
    b.push("venture".to_owned());
    b.push("venue".to_owned());
    b.push("verb".to_owned());
    b.push("verify".to_owned());
    b.push("version".to_owned());
    b.push("very".to_owned());
    b.push("vessel".to_owned());
    b.push("veteran".to_owned());
    b.push("viable".to_owned());
    b.push("vibrant".to_owned());
    b.push("vicious".to_owned());
    b.push("victory".to_owned());
    b.push("video".to_owned());
    b.push("view".to_owned());
    b
}

fn words_part_61() -> (b: Vec<String>)
    ensures
        b@.len() == 32,
{
    let mut b: Vec<String> = Vec::new();
    b.push("village".to_owned());
    b.push("vintage".to_owned());
    b.push("violin".to_owned());
    b.push("virtual".to_owned());
    b.push("virus".to_owned());
    b.push("visa".to_owned());
    b.push("visit".to_owned());
    b.push("visual".to_owned());
    b.push("vital".to_owned());
    b.push("vivid".to_owned());
    b.push("vocal".to_owned());
    b.push("voice".to_owned());
    b.push("void".to_owned());
    b.push("volcano".to_owned());
    b.push("volume".to_owned());
    b.push("vote".to_owned());
    b.push("voyage".to_owned());
    b.push("wage".to_owned());
    b.push("wagon".to_owned());
    b.push("wait".to_owned());
    b.push("walk".to_owned());
    b.push("wall".to_owned());
    b.push("walnut".to_owned());
    b.push("want".to_owned());
    b.push("warfare".to_owned());
    b.push("warm".to_owned());
    b.push("warrior".to_owned());
    b.push("wash".to_owned());
    b.push("wasp".to_owned());
    b.push("waste".to_owned());
    b.push("water".to_owned());
    b.push("wave".to_owned());
    b
}

fn words_part_62() -> (b: Vec<String>)
    ensures
        b@.len() == 32,
{
    let mut b: Vec<String> = Vec::new();
    b.push("way".to_owned());
    b.push("wealth".to_owned());
    b.push("weapon".to_owned());
    b.push("wear".to_owned());
    b.push("weasel".to_owned());
    b.push("weather".to_owned());
    b.push("web".to_owned());
    b.push("wedding".to_owned());
    b.push("weekend".to_owned());
    b.push("weird".to_owned());
    b.push("welcome".to_owned());
    b.push("west".to_owned());
    b.push("wet".to_owned());
    b.push("whale".to_owned());
    b.push("what".to_owned());
    b.push("wheat".to_owned());
    b.push("wheel".to_owned());
    b.push("when".to_owned());
    b.push("where".to_owned());
    b.push("whip".to_owned());
    b.push("whisper".to_owned());
    b.push("wide".to_owned());
    b.push("width".to_owned());
    b.push("wife".to_owned());
    b.push("wild".to_owned());
    b.push("will".to_owned());
    b.push("win".to_owned());
    b.push("window".to_owned());
    b.push("wine".to_owned());
    b.push("wing".to_owned());
    b.push("wink".to_owned());
    b.push("winner".to_owned());
    b
}

fn words_part_63() -> (b: Vec<String>)
    ensures
        b@.len() == 32,
        b@[31]@ == "zoo"@,
{
    let mut b: Vec<String> = Vec::new();
    b.push("winter".to_owned());
    b.push("wire".to_owned());
    b.push("wisdom".to_owned());
    b.push("wise".to_owned());
    b.push("wish".to_owned());
    b.push("witness".to_owned());
    b.push("wolf".to_owned());
    b.push("woman".to_owned());
    b.push("wonder".to_owned());
    b.push("wood".to_owned());
    b.push("wool".to_owned());
    b.push("word".to_owned());
    b.push("work".to_owned());
    b.push("world".to_owned());
    b.push("worry".to_owned());
    b.push("worth".to_owned());
    b.push("wrap".to_owned());
    b.push("wreck".to_owned());
    b.push("wrestle".to_owned());
    b.push("wrist".to_owned());
    b.push("write".to_owned());
    b.push("wrong".to_owned());
    b.push("yard".to_owned());
    b.push("year".to_owned());
    b.push("yellow".to_owned());
    b.push("you".to_owned());
    b.push("young".to_owned());
    b.push("youth".to_owned());
    b.push("zebra".to_owned());
    b.push("zero".to_owned());
    b.push("zone".to_owned());
    b.push("zoo".to_owned());
    b
}

fn words_block_0() -> (b: Vec<String>)
    ensures
        b@.len() == 128,
        b@[0]@ == "abandon"@,
        b@[1]@ == "ability"@,
        b@[4]@ == "above"@,
        b@[32]@ == "advice"@,
{
    let mut b: Vec<String> = words_part_0();
    let mut p_1: Vec<String> = words_part_1();
    b.append(&mut p_1);
    let mut p_2: Vec<String> = words_part_2();
    b.append(&mut p_2);
    let mut p_3: Vec<String> = words_part_3();
    b.append(&mut p_3);
    b
}

fn words_block_1() -> (b: Vec<String>)
    ensures
        b@.len() == 128,
{
    let mut b: Vec<String> = words_part_4();
    let mut p_1: Vec<String> = words_part_5();
    b.append(&mut p_1);
    let mut p_2: Vec<String> = words_part_6();
    b.append(&mut p_2);
    let mut p_3: Vec<String> = words_part_7();
    b.append(&mut p_3);
    b
}

fn words_block_2() -> (b: Vec<String>)
    ensures
        b@.len() == 128,
        b@[1]@ == "cage"@,
{
    let mut b: Vec<String> = words_part_8();
    let mut p_1: Vec<String> = words_part_9();
    b.append(&mut p_1);
    let mut p_2: Vec<String> = words_part_10();
    b.append(&mut p_2);
    let mut p_3: Vec<String> = words_part_11();
    b.append(&mut p_3);
    b
}

fn words_block_3() -> (b: Vec<String>)
    ensures
        b@.len() == 128,
        b@[124]@ == "display"@,
{
    let mut b: Vec<String> = words_part_12();
    let mut p_1: Vec<String> = words_part_13();
    b.append(&mut p_1);
    let mut p_2: Vec<String> = words_part_14();
    b.append(&mut p_2);
    let mut p_3: Vec<String> = words_part_15();
    b.append(&mut p_3);
    b
}

fn words_block_4() -> (b: Vec<String>)
    ensures
        b@.len() == 128,
{
    let mut b: Vec<String> = words_part_16();
    let mut p_1: Vec<String> = words_part_17();
    b.append(&mut p_1);
    let mut p_2: Vec<String> = words_part_18();
    b.append(&mut p_2);
    let mut p_3: Vec<String> = words_part_19();
    b.append(&mut p_3);
    b
}

fn words_block_5() -> (b: Vec<String>)
    ensures
        b@.len() == 128,
{
    let mut b: Vec<String> = words_part_20();
    let mut p_1: Vec<String> = words_part_21();
    b.append(&mut p_1);
    let mut p_2: Vec<String> = words_part_22();
    b.append(&mut p_2);
    let mut p_3: Vec<String> = words_part_23();
    b.append(&mut p_3);
    b
}

fn words_block_6() -> (b: Vec<String>)
    ensures
        b@.len() == 128,
{
    let mut b: Vec<String> = words_part_24();
    let mut p_1: Vec<String> = words_part_25();
    b.append(&mut p_1);
    let mut p_2: Vec<String> = words_part_26();
    b.append(&mut p_2);
    let mut p_3: Vec<String> = words_part_27();
    b.append(&mut p_3);
    b
}

fn words_block_7() -> (b: Vec<String>)
    ensures
        b@.len() == 128,
{
    let mut b: Vec<String> = words_part_28();
    let mut p_1: Vec<String> = words_part_29();
    b.append(&mut p_1);
    let mut p_2: Vec<String> = words_part_30();
    b.append(&mut p_2);
    let mut p_3: Vec<String> = words_part_31();
    b.append(&mut p_3);
    b
}

fn words_block_8() -> (b: Vec<String>)
    ensures
        b@.len() == 128,
{
    let mut b: Vec<String> = words_part_32();
    let mut p_1: Vec<String> = words_part_33();
    b.append(&mut p_1);
    let mut p_2: Vec<String> = words_part_34();
    b.append(&mut p_2);
    let mut p_3: Vec<String> = words_part_35();
    b.append(&mut p_3);
    b
}

fn words_block_9() -> (b: Vec<String>)
    ensures
        b@.len() == 128,
{
    let mut b: Vec<String> = words_part_36();
    let mut p_1: Vec<String> = words_part_37();
    b.append(&mut p_1);
    let mut p_2: Vec<String> = words_part_38();
    b.append(&mut p_2);
    let mut p_3: Vec<String> = words_part_39();
    b.append(&mut p_3);
    b
}

fn words_block_10() -> (b: Vec<String>)
    ensures
        b@.len() == 128,
{
    let mut b: Vec<String> = words_part_40();
    let mut p_1: Vec<String> = words_part_41();
    b.append(&mut p_1);
    let mut p_2: Vec<String> = words_part_42();
    b.append(&mut p_2);
    let mut p_3: Vec<String> = words_part_43();
    b.append(&mut p_3);
    b
}

fn words_block_11() -> (b: Vec<String>)
    ensures
        b@.len() == 128,
{
    let mut b: Vec<String> = words_part_44();
    let mut p_1: Vec<String> = words_part_45();
    b.append(&mut p_1);
    let mut p_2: Vec<String> = words_part_46();
    b.append(&mut p_2);
    let mut p_3: Vec<String> = words_part_47();
    b.append(&mut p_3);
    b
}

fn words_block_12() -> (b: Vec<String>)
    ensures
        b@.len() == 128,
{
    let mut b: Vec<String> = words_part_48();
    let mut p_1: Vec<String> = words_part_49();
    b.append(&mut p_1);
    let mut p_2: Vec<String> = words_part_50();
    b.append(&mut p_2);
    let mut p_3: Vec<String> = words_part_51();
    b.append(&mut p_3);
    b
}

fn words_block_13() -> (b: Vec<String>)
    ensures
        b@.len() == 128,
{
    let mut b: Vec<String> = words_part_52();
    let mut p_1: Vec<String> = words_part_53();
    b.append(&mut p_1);
    let mut p_2: Vec<String> = words_part_54();
    b.append(&mut p_2);
    let mut p_3: Vec<String> = words_part_55();
    b.append(&mut p_3);
    b
}

fn words_block_14() -> (b: Vec<String>)
    ensures
        b@.len() == 128,
{
    let mut b: Vec<String> = words_part_56();
    let mut p_1: Vec<String> = words_part_57();
    b.append(&mut p_1);
    let mut p_2: Vec<String> = words_part_58();
    b.append(&mut p_2);
    let mut p_3: Vec<String> = words_part_59();
    b.append(&mut p_3);
    b
}

fn words_block_15() -> (b: Vec<String>)
    ensures
        b@.len() == 128,
        b@[127]@ == "zoo"@,
{
    let mut b: Vec<String> = words_part_60();
    let mut p_1: Vec<String> = words_part_61();
    b.append(&mut p_1);
    let mut p_2: Vec<String> = words_part_62();
    b.append(&mut p_2);
    let mut p_3: Vec<String> = words_part_63();
    b.append(&mut p_3);
    b
}

/// The standard English dictionary, in order; position is the word's code.
/// The contract pins the entries that the codec's boundary vectors name.
pub fn english_words() -> (r: Vec<String>)
    ensures
        r.deep_view().len() == 2048,
        r.deep_view()[0] == "abandon"@,
        r.deep_view()[1] == "ability"@,
        r.deep_view()[4] == "above"@,
        r.deep_view()[32] == "advice"@,
        r.deep_view()[257] == "cage"@,
        r.deep_view()[508] == "display"@,
        r.deep_view()[2047] == "zoo"@,
{
    let mut v: Vec<String> = words_block_0();
    let mut part_1: Vec<String> = words_block_1();
    v.append(&mut part_1);
    let mut part_2: Vec<String> = words_block_2();
    v.append(&mut part_2);
    let mut part_3: Vec<String> = words_block_3();
    v.append(&mut part_3);
    let mut part_4: Vec<String> = words_block_4();
    v.append(&mut part_4);
    let mut part_5: Vec<String> = words_block_5();
    v.append(&mut part_5);
    let mut part_6: Vec<String> = words_block_6();
    v.append(&mut part_6);
    let mut part_7: Vec<String> = words_block_7();
    v.append(&mut part_7);
    let mut part_8: Vec<String> = words_block_8();
    v.append(&mut part_8);
    let mut part_9: Vec<String> = words_block_9();
    v.append(&mut part_9);
    let mut part_10: Vec<String> = words_block_10();
    v.append(&mut part_10);
    let mut part_11: Vec<String> = words_block_11();
    v.append(&mut part_11);
    let mut part_12: Vec<String> = words_block_12();
    v.append(&mut part_12);
    let mut part_13: Vec<String> = words_block_13();
    v.append(&mut part_13);
    let mut part_14: Vec<String> = words_block_14();
    v.append(&mut part_14);
    let mut part_15: Vec<String> = words_block_15();
    v.append(&mut part_15);
    proof {
        assert forall|k: int| 0 <= k < v@.len() implies v.deep_view()[k] == v@[k]@ by {}
    }
    v
}

} // verus!
